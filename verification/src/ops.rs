//! The context operations: save, switch, delete, run and login, as
//! verified transitions on the store model.
//!
//! Each mutating operation returns the exact, ordered sequence of
//! filesystem effects the caller must perform to bring the real store in
//! line with the model, and the detail notices to print unless quiet mode
//! suppresses them. Operations that only decide (switching plans, run
//! plans, login plans) take no step themselves: they hand the caller a
//! plan whose contract pins every field.

use vstd::prelude::*;

verus! {

use vstd::string::StringExecFns;

use crate::errors::CtxError;
use crate::metadata::ContextMetadata;
use crate::metadata::MetadataView;
use crate::metadata::copy_opt_string;
use crate::metadata::opt_seq;
use crate::names::name_problem;
use crate::names::validate_context_name;
use crate::order::str_eq;
use crate::paths::adc_path_spec;
use crate::paths::context_adc_path_spec;
use crate::paths::context_dir_spec;
use crate::paths::context_metadata_path_spec;
use crate::paths::get_adc_path;
use crate::paths::get_context_adc_path;
use crate::paths::get_context_dir;
use crate::paths::get_context_metadata_path;
use crate::paths::get_tracking_path;
use crate::paths::tracking_path_spec;
use crate::store::ContextEntry;
use crate::store::ContextStore;
use crate::store::EntryView;
use crate::store::StoreView;
use crate::store::find_entry;
use crate::store::insert_entry;
use crate::store::lemma_find_remove_other;
use crate::store::lemma_find_remove_self;
use crate::store::lemma_remove_entry_at;
use crate::store::profile_of;
use crate::store::remove_entry;

/// Mathematical image of one filesystem effect.
pub enum EffectView {
    EnsureDir { path: Seq<char> },
    WriteBlob { path: Seq<char>, content: Seq<u8> },
    WriteMetadata { path: Seq<char>, record: MetadataView },
    RestrictToOwner { path: Seq<char> },
    WriteMarker { path: Seq<char>, value: Seq<char> },
    RemoveDirTree { path: Seq<char> },
    CopyFile { from: Seq<char>, to: Seq<char> },
}

/// One filesystem action an operation asks its caller to perform.
#[derive(Debug)]
pub enum Effect {
    /// Create the directory, and its parents, if absent.
    EnsureDir { path: String },
    /// Write the bytes to the file, replacing any prior content.
    WriteBlob { path: String, content: Vec<u8> },
    /// Serialize the record and write it to the file, replacing any prior
    /// content whole; no merging.
    WriteMetadata { path: String, record: ContextMetadata },
    /// Restrict the file to owner read/write (no group or world access),
    /// on filesystems that support permission bits.
    RestrictToOwner { path: String },
    /// Write the marker value to the file, byte-exact.
    WriteMarker { path: String, value: String },
    /// Remove the directory tree.
    RemoveDirTree { path: String },
    /// Copy the bytes of one file over another, replacing prior content.
    CopyFile { from: String, to: String },
}

impl View for Effect {
    type V = EffectView;

    open spec fn view(&self) -> EffectView {
        match self {
            Effect::EnsureDir { path } => EffectView::EnsureDir { path: path@ },
            Effect::WriteBlob { path, content } => EffectView::WriteBlob {
                path: path@,
                content: content@,
            },
            Effect::WriteMetadata { path, record } => EffectView::WriteMetadata {
                path: path@,
                record: record@,
            },
            Effect::RestrictToOwner { path } => EffectView::RestrictToOwner { path: path@ },
            Effect::WriteMarker { path, value } => EffectView::WriteMarker {
                path: path@,
                value: value@,
            },
            Effect::RemoveDirTree { path } => EffectView::RemoveDirTree { path: path@ },
            Effect::CopyFile { from, to } => EffectView::CopyFile { from: from@, to: to@ },
        }
    }
}

/// The views of a sequence of effects.
pub open spec fn effects_view(s: Seq<Effect>) -> Seq<EffectView> {
    s.map_values(|e: Effect| e@)
}

/// Mathematical image of one detail notice.
pub enum NoticeView {
    ConfigDetail { value: Seq<char> },
    AccountDetail { value: Seq<char> },
    ProjectDetail { value: Seq<char> },
    KubectlDetail { value: Seq<char> },
}

/// One line of the detail block an operation reports about a context;
/// quiet mode suppresses the whole block.
#[derive(Debug)]
pub enum Notice {
    /// The provider configuration name recorded for the context.
    ConfigDetail { value: String },
    /// The account recorded for the context.
    AccountDetail { value: String },
    /// The project recorded for the context.
    ProjectDetail { value: String },
    /// The cluster context recorded for the context.
    KubectlDetail { value: String },
}

impl View for Notice {
    type V = NoticeView;

    open spec fn view(&self) -> NoticeView {
        match self {
            Notice::ConfigDetail { value } => NoticeView::ConfigDetail { value: value@ },
            Notice::AccountDetail { value } => NoticeView::AccountDetail { value: value@ },
            Notice::ProjectDetail { value } => NoticeView::ProjectDetail { value: value@ },
            Notice::KubectlDetail { value } => NoticeView::KubectlDetail { value: value@ },
        }
    }
}

/// The views of a sequence of notices.
pub open spec fn notices_view(s: Seq<Notice>) -> Seq<NoticeView> {
    s.map_values(|n: Notice| n@)
}

/// The detail block for a metadata record: the configuration line when
/// asked for, then one line for each recorded optional field.
pub open spec fn detail_notices(m: MetadataView, with_config: bool) -> Seq<NoticeView> {
    (if with_config {
        seq![NoticeView::ConfigDetail { value: m.gcloud_config }]
    } else {
        Seq::<NoticeView>::empty()
    }) + (match m.account {
        Some(a) => seq![NoticeView::AccountDetail { value: a }],
        None => Seq::<NoticeView>::empty(),
    }) + (match m.project {
        Some(p) => seq![NoticeView::ProjectDetail { value: p }],
        None => Seq::<NoticeView>::empty(),
    }) + (match m.kubectl_context {
        Some(k) => seq![NoticeView::KubectlDetail { value: k }],
        None => Seq::<NoticeView>::empty(),
    })
}

/// Builds the detail block of a record.
pub fn metadata_detail_notices(record: &ContextMetadata, with_config: bool) -> (r: Vec<Notice>)
    ensures
        notices_view(r@) == detail_notices(record@, with_config),
{
    let mut out: Vec<Notice> = Vec::new();
    if with_config {
        out.push(Notice::ConfigDetail { value: record.gcloud_config.clone() });
    }
    match &record.account {
        Some(a) => out.push(Notice::AccountDetail { value: a.clone() }),
        None => (),
    }
    match &record.project {
        Some(p) => out.push(Notice::ProjectDetail { value: p.clone() }),
        None => (),
    }
    match &record.kubectl_context {
        Some(k) => out.push(Notice::KubectlDetail { value: k.clone() }),
        None => (),
    }
    proof {
        assert(notices_view(out@) =~= detail_notices(record@, with_config));
    }
    out
}

/// The detail block a save reports: nothing when quiet, else the full
/// block with the configuration line.
pub open spec fn save_notices(record: MetadataView, quiet: bool) -> Seq<NoticeView> {
    if quiet {
        Seq::<NoticeView>::empty()
    } else {
        detail_notices(record, true)
    }
}

/// The store after a successful save: the entry inserted at its ordered
/// position, replacing any prior entry of the name whole, and the marker
/// set to the saved name.
pub open spec fn save_transition(
    s: StoreView,
    name: Seq<char>,
    blob: Seq<u8>,
    record: MetadataView,
) -> StoreView {
    StoreView {
        entries: insert_entry(s.entries, EntryView { name, blob, metadata: Some(record) }),
        current: name,
        store_dir: s.store_dir,
        gcloud_dir: s.gcloud_dir,
    }
}

/// The ordered filesystem effects of a successful save: make the context
/// directory, write the blob, write the record, restrict the blob to its
/// owner, and mark the context active.
pub open spec fn save_effects(
    s: StoreView,
    name: Seq<char>,
    blob: Seq<u8>,
    record: MetadataView,
) -> Seq<EffectView> {
    seq![
        EffectView::EnsureDir { path: context_dir_spec(s.store_dir, name) },
        EffectView::WriteBlob { path: context_adc_path_spec(s.store_dir, name), content: blob },
        EffectView::WriteMetadata {
            path: context_metadata_path_spec(s.store_dir, name),
            record,
        },
        EffectView::RestrictToOwner { path: context_adc_path_spec(s.store_dir, name) },
        EffectView::WriteMarker { path: tracking_path_spec(s.store_dir), value: name },
    ]
}

/// The store after a delete: the named entry dropped; the marker is left
/// as it was, even when it names the deleted context.
pub open spec fn delete_transition(s: StoreView, name: Seq<char>) -> StoreView {
    StoreView {
        entries: remove_entry(s.entries, name),
        current: s.current,
        store_dir: s.store_dir,
        gcloud_dir: s.gcloud_dir,
    }
}

/// The cluster context recorded for an entry, if any.
pub open spec fn kubectl_of(e: EntryView) -> Option<Seq<char>> {
    match e.metadata {
        Some(m) => m.kubectl_context,
        None => None,
    }
}

/// What a save returns: the effects to perform, in order, and the detail
/// notices to print.
#[derive(Debug)]
pub struct SaveOutcome {
    pub effects: Vec<Effect>,
    pub notices: Vec<Notice>,
}

/// The external steps a switch needs once the store has decided them.
#[derive(Debug)]
pub struct SwitchActivation {
    /// The provider configuration to activate: the recorded one, or the
    /// context name for contexts saved before metadata existed.
    pub gcloud_config: String,
    /// Restores the saved blob over the live one, once activation
    /// succeeded.
    pub restore: Effect,
    /// The cluster context to switch afterwards, best effort, if any.
    pub kubectl_context: Option<String>,
}

/// The decision a switch request comes to.
#[derive(Debug)]
pub enum SwitchPlan {
    /// The requested context is already active: succeed at once, with no
    /// external tool touched and no state changed.
    AlreadyActive,
    /// Activate the configuration, restore the blob, then commit the
    /// marker.
    Activate(SwitchActivation),
}

/// What a delete returns.
#[derive(Debug)]
pub struct DeleteOutcome {
    /// The filesystem effects to perform, in order.
    pub effects: Vec<Effect>,
    /// True when the deleted context was the active one; the caller warns
    /// but proceeds, and the marker is left dangling.
    pub was_active: bool,
    /// True when the caller asked for the external configuration to be
    /// deleted too, after the directory removal commits.
    pub delete_profile: bool,
}

/// The environment and command a scoped run spawns; nothing global moves.
#[derive(Debug)]
pub struct RunPlan {
    /// The program to spawn: the first command token.
    pub program: String,
    /// The remaining command tokens.
    pub args: Vec<String>,
    /// The credential path the child's environment is pointed at.
    pub credentials_path: String,
    /// The configuration name the child's environment is pointed at.
    pub gcloud_config: String,
}

/// What login does to the provider configuration before authenticating.
#[derive(Debug, Clone, Copy, PartialEq, Eq, Structural)]
pub enum ProfileSetup {
    /// The configuration exists: activate it.
    ActivateExisting,
    /// The configuration is missing: create it.
    CreateNew,
}

/// Decides login's configuration step from the name and whether the
/// external configuration already exists. Either step failing is a
/// warning for the caller, never fatal; login then authenticates and
/// delegates to save.
pub fn login_plan(name: &str, config_exists: bool) -> (r: Result<ProfileSetup, CtxError>)
    ensures
        match name_problem(name@) {
            Some(p) => r == Err::<ProfileSetup, CtxError>(CtxError::InvalidName { problem: p }),
            None => r == Ok::<ProfileSetup, CtxError>(
                if config_exists {
                    ProfileSetup::ActivateExisting
                } else {
                    ProfileSetup::CreateNew
                },
            ),
        },
{
    if let Err(e) = validate_context_name(name) {
        return Err(e);
    }
    if config_exists {
        Ok(ProfileSetup::ActivateExisting)
    } else {
        Ok(ProfileSetup::CreateNew)
    }
}

/// Copies a byte vector.
pub fn copy_bytes(v: &Vec<u8>) -> (r: Vec<u8>)
    ensures
        r@ == v@,
{
    let n = v.len();
    let mut out: Vec<u8> = Vec::new();
    let mut i: usize = 0;
    while i < n
        invariant
            n == v.len(),
            i <= n,
            out@.len() == i,
            forall|j: int| 0 <= j < i ==> out@[j] == v@[j],
        decreases n - i,
    {
        out.push(v[i]);
        i += 1;
    }
    proof {
        assert(out@ =~= v@);
    }
    out
}

impl ContextStore {
    /// Saves the live credential blob and the captured provider state as
    /// the named context, replacing any prior content of that name whole,
    /// and marks it active. `source` is the live blob if one exists;
    /// without one the save fails before any effect. `record` is the
    /// provider state captured by the caller's queries.
    pub fn save_context(
        &mut self,
        name: &str,
        source: Option<Vec<u8>>,
        record: ContextMetadata,
        quiet: bool,
    ) -> (r: Result<SaveOutcome, CtxError>)
        requires
            old(self).wf(),
        ensures
            final(self).wf(),
            match name_problem(name@) {
                Some(p) => {
                    &&& r == Err::<SaveOutcome, CtxError>(CtxError::InvalidName { problem: p })
                    &&& final(self)@ == old(self)@
                },
                None => match source {
                    Option::None => {
                        &&& r == Err::<SaveOutcome, CtxError>(CtxError::NoCredentials)
                        &&& final(self)@ == old(self)@
                    },
                    Option::Some(blob) => {
                        &&& r matches Ok(o)
                        &&& final(self)@ == save_transition(old(self)@, name@, blob@, record@)
                        &&& effects_view(o.effects@) == save_effects(
                            old(self)@,
                            name@,
                            blob@,
                            record@,
                        )
                        &&& notices_view(o.notices@) == save_notices(record@, quiet)
                    },
                },
            },
    {
        if let Err(e) = validate_context_name(name) {
            return Err(e);
        }
        let blob = match source {
            None => {
                return Err(CtxError::NoCredentials);
            },
            Some(b) => b,
        };
        let store_dir = self.store_dir().clone();
        let dir = get_context_dir(store_dir.as_str(), name);
        let blob_path = get_context_adc_path(store_dir.as_str(), name);
        let meta_path = get_context_metadata_path(store_dir.as_str(), name);
        let marker_path = get_tracking_path(store_dir.as_str());
        let mut effects: Vec<Effect> = Vec::new();
        effects.push(Effect::EnsureDir { path: dir });
        effects.push(Effect::WriteBlob { path: blob_path.clone(), content: copy_bytes(&blob) });
        effects.push(Effect::WriteMetadata { path: meta_path, record: record.duplicate() });
        effects.push(Effect::RestrictToOwner { path: blob_path });
        effects.push(Effect::WriteMarker { path: marker_path, value: String::from_str(name) });
        let notices = if quiet {
            Vec::new()
        } else {
            metadata_detail_notices(&record, true)
        };
        let ghost blobv = blob@;
        let ghost recv = record@;
        self.insert_sorted(
            ContextEntry { name: String::from_str(name), blob, metadata: Some(record) },
        );
        self.set_current(String::from_str(name));
        proof {
            assert(effects_view(effects@) =~= save_effects(old(self)@, name@, blobv, recv));
            assert(notices_view(notices@) =~= save_notices(recv, quiet));
        }
        Ok(SaveOutcome { effects, notices })
    }

    /// Decides a switch request. Nothing in the store changes: the caller
    /// performs the plan and then commits the marker.
    pub fn switch_plan(&self, name: &str) -> (r: Result<SwitchPlan, CtxError>)
        ensures
            match name_problem(name@) {
                Some(p) => r == Err::<SwitchPlan, CtxError>(CtxError::InvalidName { problem: p }),
                None => match self@.find(name@) {
                    Option::None => r == Err::<SwitchPlan, CtxError>(CtxError::ContextNotFound),
                    Option::Some(e) => {
                        if self@.current == name@ {
                            r matches Ok(SwitchPlan::AlreadyActive)
                        } else {
                            &&& r matches Ok(SwitchPlan::Activate(a))
                            &&& a.gcloud_config@ == profile_of(e)
                            &&& a.restore@ == EffectView::CopyFile {
                                from: context_adc_path_spec(self@.store_dir, name@),
                                to: adc_path_spec(self@.gcloud_dir),
                            }
                            &&& opt_seq(a.kubectl_context) == kubectl_of(e)
                        }
                    },
                },
            },
    {
        if let Err(e) = validate_context_name(name) {
            return Err(e);
        }
        let i = match self.find_index(name) {
            None => {
                return Err(CtxError::ContextNotFound);
            },
            Some(i) => i,
        };
        let cur = self.get_current_tracking();
        if str_eq(cur.as_str(), name) {
            return Ok(SwitchPlan::AlreadyActive);
        }
        let entry = self.entry_at(i);
        let profile = match &entry.metadata {
            Some(m) => m.gcloud_config.clone(),
            None => entry.name.clone(),
        };
        let kube = match &entry.metadata {
            Some(m) => copy_opt_string(&m.kubectl_context),
            None => None,
        };
        let from = get_context_adc_path(self.store_dir().as_str(), name);
        let to = get_adc_path(self.gcloud_dir().as_str());
        Ok(
            SwitchPlan::Activate(
                SwitchActivation {
                    gcloud_config: profile,
                    restore: Effect::CopyFile { from, to },
                    kubectl_context: kube,
                },
            ),
        )
    }

    /// Commits the marker to `name` and hands back the marker write: the
    /// last step of a switch, and the only state a switch moves.
    pub fn set_current_tracking(&mut self, name: &str) -> (e: Effect)
        ensures
            final(self)@.current == name@,
            final(self)@.entries == old(self)@.entries,
            final(self)@.store_dir == old(self)@.store_dir,
            final(self)@.gcloud_dir == old(self)@.gcloud_dir,
            final(self).wf() == old(self).wf(),
            e@ == (EffectView::WriteMarker {
                path: tracking_path_spec(old(self)@.store_dir),
                value: name@,
            }),
    {
        let path = get_tracking_path(self.store_dir().as_str());
        self.set_current(String::from_str(name));
        Effect::WriteMarker { path, value: String::from_str(name) }
    }

    /// The detail block an operation prints about the named context:
    /// nothing when quiet, nothing when the context or its record is
    /// absent, else one line for each recorded field.
    pub open spec fn context_details_spec(s: StoreView, name: Seq<char>, quiet: bool) -> Seq<
        NoticeView,
    > {
        if quiet {
            Seq::<NoticeView>::empty()
        } else {
            match find_entry(s.entries, name) {
                Some(e) => match e.metadata {
                    Some(m) => detail_notices(m, false),
                    None => Seq::<NoticeView>::empty(),
                },
                None => Seq::<NoticeView>::empty(),
            }
        }
    }

    /// Builds the detail block for the named context.
    pub fn context_detail_notices(&self, name: &str, quiet: bool) -> (r: Vec<Notice>)
        ensures
            notices_view(r@) == Self::context_details_spec(self@, name@, quiet),
    {
        if quiet {
            let out: Vec<Notice> = Vec::new();
            proof {
                assert(notices_view(out@) =~= Seq::<NoticeView>::empty());
            }
            return out;
        }
        match self.find_index(name) {
            None => {
                let out: Vec<Notice> = Vec::new();
                proof {
                    assert(notices_view(out@) =~= Seq::<NoticeView>::empty());
                }
                out
            },
            Some(i) => {
                let entry = self.entry_at(i);
                match &entry.metadata {
                    Some(m) => metadata_detail_notices(m, false),
                    None => {
                        let out: Vec<Notice> = Vec::new();
                        proof {
                            assert(notices_view(out@) =~= Seq::<NoticeView>::empty());
                        }
                        out
                    },
                }
            },
        }
    }

    /// Deletes the named context: its directory tree goes, the marker
    /// stays as it was even when it named the deleted context, and every
    /// other context is untouched.
    pub fn delete_context(&mut self, name: &str, delete_gcloud_config: bool) -> (r: Result<
        DeleteOutcome,
        CtxError,
    >)
        requires
            old(self).wf(),
        ensures
            final(self).wf(),
            match name_problem(name@) {
                Some(p) => {
                    &&& r == Err::<DeleteOutcome, CtxError>(CtxError::InvalidName { problem: p })
                    &&& final(self)@ == old(self)@
                },
                None => match old(self)@.find(name@) {
                    Option::None => {
                        &&& r == Err::<DeleteOutcome, CtxError>(CtxError::ContextNotFound)
                        &&& final(self)@ == old(self)@
                    },
                    Option::Some(_) => {
                        &&& r matches Ok(o)
                        &&& final(self)@ == delete_transition(old(self)@, name@)
                        &&& !final(self)@.has(name@)
                        &&& forall|n: Seq<char>|
                            n != name@ ==> #[trigger] final(self)@.find(n) == old(self)@.find(n)
                        &&& effects_view(o.effects@) == seq![
                            EffectView::RemoveDirTree {
                                path: context_dir_spec(old(self)@.store_dir, name@),
                            },
                        ]
                        &&& o.was_active == (old(self)@.current == name@)
                        &&& o.delete_profile == delete_gcloud_config
                    },
                },
            },
    {
        if let Err(e) = validate_context_name(name) {
            return Err(e);
        }
        let i = match self.find_index(name) {
            None => {
                return Err(CtxError::ContextNotFound);
            },
            Some(i) => i,
        };
        let cur = self.get_current_tracking();
        let was_active = str_eq(cur.as_str(), name);
        let dir = get_context_dir(self.store_dir().as_str(), name);
        let mut effects: Vec<Effect> = Vec::new();
        effects.push(Effect::RemoveDirTree { path: dir });
        let ghost s0 = self@.entries;
        self.remove_at(i);
        proof {
            lemma_remove_entry_at(s0, name@, i as int);
            assert(self@.entries == remove_entry(s0, name@));
            assert forall|a: int, b: int|
                0 <= a < b < self@.entries.len() implies crate::order::lex_lt(
                self@.entries[a].name,
                self@.entries[b].name,
            ) by {
                assert(self@.entries[a] == if a < i {
                    s0[a]
                } else {
                    s0[a + 1]
                });
                assert(self@.entries[b] == if b < i {
                    s0[b]
                } else {
                    s0[b + 1]
                });
            }
            lemma_find_remove_self(s0, name@);
            assert forall|n: Seq<char>| n != name@ implies #[trigger] self@.find(n) == find_entry(
                s0,
                n,
            ) by {
                lemma_find_remove_other(s0, name@, n);
            }
            assert(effects_view(effects@) =~= seq![
                EffectView::RemoveDirTree {
                    path: context_dir_spec(old(self)@.store_dir, name@),
                },
            ]);
        }
        Ok(DeleteOutcome { effects, was_active, delete_profile: delete_gcloud_config })
    }

    /// Decides a scoped run: the command to spawn and the two environment
    /// values that point the child at this context. Nothing global moves;
    /// the marker and every entry stay untouched.
    pub fn run_plan(&self, name: &str, cmd: &Vec<String>) -> (r: Result<RunPlan, CtxError>)
        ensures
            match name_problem(name@) {
                Some(p) => r == Err::<RunPlan, CtxError>(CtxError::InvalidName { problem: p }),
                None => {
                    if cmd@.len() == 0 {
                        r == Err::<RunPlan, CtxError>(CtxError::NoCommand)
                    } else {
                        match self@.find(name@) {
                            Option::None => r == Err::<RunPlan, CtxError>(
                                CtxError::ContextNotFound,
                            ),
                            Option::Some(e) => {
                                &&& r matches Ok(p)
                                &&& p.program@ == cmd@[0]@
                                &&& p.args@.len() == cmd@.len() - 1
                                &&& forall|j: int|
                                    0 <= j < p.args@.len() ==> #[trigger] p.args@[j]@ == cmd@[j
                                        + 1]@
                                &&& p.credentials_path@ == context_adc_path_spec(
                                    self@.store_dir,
                                    name@,
                                )
                                &&& p.gcloud_config@ == profile_of(e)
                            },
                        }
                    }
                },
            },
    {
        if let Err(e) = validate_context_name(name) {
            return Err(e);
        }
        if cmd.len() == 0 {
            return Err(CtxError::NoCommand);
        }
        let i = match self.find_index(name) {
            None => {
                return Err(CtxError::ContextNotFound);
            },
            Some(i) => i,
        };
        let entry = self.entry_at(i);
        let profile = match &entry.metadata {
            Some(m) => m.gcloud_config.clone(),
            None => entry.name.clone(),
        };
        let credentials_path = get_context_adc_path(self.store_dir().as_str(), name);
        let program = cmd[0].clone();
        let n = cmd.len();
        let mut args: Vec<String> = Vec::new();
        let mut j: usize = 1;
        while j < n
            invariant
                1 <= j <= n,
                n == cmd@.len(),
                args@.len() == j - 1,
                forall|t: int| 0 <= t < args@.len() ==> #[trigger] args@[t]@ == cmd@[t + 1]@,
            decreases n - j,
        {
            args.push(cmd[j].clone());
            j += 1;
        }
        Ok(RunPlan { program, args, credentials_path, gcloud_config: profile })
    }
}

} // verus!

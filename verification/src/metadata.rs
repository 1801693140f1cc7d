//! The per-context metadata record.

use vstd::prelude::*;

verus! {

/// Mathematical image of an optional string.
pub open spec fn opt_seq(o: Option<String>) -> Option<Seq<char>> {
    match o {
        Some(s) => Some(s@),
        None => None,
    }
}

/// Mathematical image of an optional metadata record.
pub open spec fn opt_record_view(o: Option<ContextMetadata>) -> Option<MetadataView> {
    match o {
        Some(m) => Some(m@),
        None => None,
    }
}

/// Mathematical image of a metadata record.
pub struct MetadataView {
    pub gcloud_config: Seq<char>,
    pub account: Option<Seq<char>>,
    pub project: Option<Seq<char>>,
    pub kubectl_context: Option<Seq<char>>,
}

/// Metadata stored alongside each context's credential blob: the provider
/// configuration that was active when the context was saved, the account
/// and project if known, and the secondary cluster context if one was
/// active. The record is rewritten whole on every save.
#[derive(Debug)]
pub struct ContextMetadata {
    /// The provider configuration name that was active when saved.
    pub gcloud_config: String,
    /// The account identifier associated with this context, if known.
    pub account: Option<String>,
    /// The project identifier, if one was set.
    pub project: Option<String>,
    /// The cluster-client context that was active when saved, if any.
    pub kubectl_context: Option<String>,
}

impl View for ContextMetadata {
    type V = MetadataView;

    open spec fn view(&self) -> MetadataView {
        MetadataView {
            gcloud_config: self.gcloud_config@,
            account: opt_seq(self.account),
            project: opt_seq(self.project),
            kubectl_context: opt_seq(self.kubectl_context),
        }
    }
}

/// Copies an optional string.
pub fn copy_opt_string(o: &Option<String>) -> (r: Option<String>)
    ensures
        opt_seq(r) == opt_seq(*o),
{
    match o {
        Some(s) => Some(s.clone()),
        None => None,
    }
}

impl ContextMetadata {
    /// Copies the record.
    pub fn duplicate(&self) -> (r: Self)
        ensures
            r@ == self@,
    {
        ContextMetadata {
            gcloud_config: self.gcloud_config.clone(),
            account: copy_opt_string(&self.account),
            project: copy_opt_string(&self.project),
            kubectl_context: copy_opt_string(&self.kubectl_context),
        }
    }
}

} // verus!

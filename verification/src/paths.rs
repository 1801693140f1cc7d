//! Path resolution: every on-disk location the store uses, as pure
//! functions of the directory roots and the context name.
//!
//! The caller supplies the store root and the provider configuration
//! directory (resolved from the environment or the user's home outside the
//! library); each function appends the conventional file names.

use vstd::prelude::*;

verus! {

use vstd::string::StringExecFns;

/// The live credential-blob file inside the provider's configuration directory.
pub open spec fn adc_path_spec(gcloud_dir: Seq<char>) -> Seq<char> {
    gcloud_dir + "/application_default_credentials.json"@
}

/// The directory holding one saved context.
pub open spec fn context_dir_spec(store_dir: Seq<char>, name: Seq<char>) -> Seq<char> {
    store_dir + "/"@ + name
}

/// The saved credential blob of one context.
pub open spec fn context_adc_path_spec(store_dir: Seq<char>, name: Seq<char>) -> Seq<char> {
    store_dir + "/"@ + name + "/adc.json"@
}

/// The metadata file of one context.
pub open spec fn context_metadata_path_spec(store_dir: Seq<char>, name: Seq<char>) -> Seq<char> {
    store_dir + "/"@ + name + "/metadata.json"@
}

/// The active-context marker file at the store root.
pub open spec fn tracking_path_spec(store_dir: Seq<char>) -> Seq<char> {
    store_dir + "/.current"@
}

/// The path of the provider's live credential blob.
pub fn get_adc_path(gcloud_dir: &str) -> (r: String)
    ensures
        r@ == adc_path_spec(gcloud_dir@),
{
    let mut p = String::from_str(gcloud_dir);
    p.append("/application_default_credentials.json");
    p
}

/// The path of the directory holding the named context.
pub fn get_context_dir(store_dir: &str, name: &str) -> (r: String)
    ensures
        r@ == context_dir_spec(store_dir@, name@),
{
    let mut p = String::from_str(store_dir);
    p.append("/");
    p.append(name);
    p
}

/// The path of the named context's saved credential blob.
pub fn get_context_adc_path(store_dir: &str, name: &str) -> (r: String)
    ensures
        r@ == context_adc_path_spec(store_dir@, name@),
{
    let mut p = String::from_str(store_dir);
    p.append("/");
    p.append(name);
    p.append("/adc.json");
    p
}

/// The path of the named context's metadata file.
pub fn get_context_metadata_path(store_dir: &str, name: &str) -> (r: String)
    ensures
        r@ == context_metadata_path_spec(store_dir@, name@),
{
    let mut p = String::from_str(store_dir);
    p.append("/");
    p.append(name);
    p.append("/metadata.json");
    p
}

/// The path of the active-context marker file.
pub fn get_tracking_path(store_dir: &str) -> (r: String)
    ensures
        r@ == tracking_path_spec(store_dir@),
{
    let mut p = String::from_str(store_dir);
    p.append("/.current");
    p
}

} // verus!

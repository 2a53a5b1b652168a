//! Where the three records are kept: the check-in record, the mail
//! settings and the device configuration, each in a file of its own under
//! the application's directory.
use vstd::prelude::*;

verus! {

/// A single path component: not empty, not `.` or `..`, with no separator
/// and no drive mark.
pub open spec fn is_plain_name(name: Seq<char>) -> bool {
    &&& name.len() > 0
    &&& !(name.len() == 1 && name[0] == '.')
    &&& !(name.len() == 2 && name[0] == '.' && name[1] == '.')
    &&& forall|i: int|
        0 <= i < name.len() ==> #[trigger] name[i] != '/' && name[i] != '\\' && name[i] != ':'
}

/// The directory does not start with the verbatim prefix `\\?\`, under
/// which Windows rewrites a joined path.
pub open spec fn no_verbatim_prefix(dir: Seq<char>) -> bool {
    !(dir.len() >= 4 && dir.subrange(0, 4) == seq!['\\', '\\', '?', '\\'])
}

/// The path that joining `name` to `dir` gives.
pub uninterp spec fn joined_path(dir: Seq<char>, name: Seq<char>) -> Seq<char>;

/// `path` is `name` placed inside `dir`: right after it when `dir` is empty
/// or already ends in a separator, else after one separator.
pub open spec fn placed_in(path: Seq<char>, dir: Seq<char>, name: Seq<char>) -> bool {
    &&& dir.len() == 0 ==> path == name
    &&& dir.len() > 0 && dir.last() == '/' ==> path == dir + name
    &&& path == dir + name || path == dir + seq!['/'] + name || path == dir + seq!['\\'] + name
}

/// `name` inside the directory `dir`.
///
/// Relies on `std::path::Path::join`, through `PathBuf::push`: the result
/// depends on the two texts alone; a relative single component other than
/// `.` and `..` is appended to a directory without a verbatim prefix (under
/// which Windows normalises the joined path, and nothing more is promised), after
/// a separator unless the directory is empty or already ends in one (`/`
/// on every platform, `/` or `\` on Windows, which also appends none after
/// a bare drive such as `C:`). Text joined from two strings is valid
/// Unicode, so nothing is lost in converting back.
#[verifier::external_body]
fn join_path(dir: &str, name: &str) -> (r: String)
    requires
        is_plain_name(name@),
    ensures
        r@ == joined_path(dir@, name@),
        no_verbatim_prefix(dir@) ==> placed_in(r@, dir@, name@),
{
    std::path::Path::new(dir).join(name).to_string_lossy().into_owned()
}

/// The application's directory inside the configuration directory
/// `config_dir`.
pub fn get_app_dir(config_dir: &str) -> (r: String)
    ensures
        r@ == joined_path(config_dir@, "areuok"@),
        no_verbatim_prefix(config_dir@) ==> placed_in(r@, config_dir@, "areuok"@),
{
    proof {
        reveal_strlit("areuok");
    }
    join_path(config_dir, "areuok")
}

/// The path of the check-in record inside the application's directory.
pub fn get_data_file_path(app_dir: &str) -> (r: String)
    ensures
        r@ == joined_path(app_dir@, "data.json"@),
        no_verbatim_prefix(app_dir@) ==> placed_in(r@, app_dir@, "data.json"@),
{
    proof {
        reveal_strlit("data.json");
    }
    join_path(app_dir, "data.json")
}

/// The path of the mail settings inside the application's directory.
pub fn get_email_config_path(app_dir: &str) -> (r: String)
    ensures
        r@ == joined_path(app_dir@, "email_config.json"@),
        no_verbatim_prefix(app_dir@) ==> placed_in(r@, app_dir@, "email_config.json"@),
{
    proof {
        reveal_strlit("email_config.json");
    }
    join_path(app_dir, "email_config.json")
}

/// The path of the device configuration inside the application's directory.
pub fn get_device_config_path(app_dir: &str) -> (r: String)
    ensures
        r@ == joined_path(app_dir@, "device_config.json"@),
        no_verbatim_prefix(app_dir@) ==> placed_in(r@, app_dir@, "device_config.json"@),
{
    proof {
        reveal_strlit("device_config.json");
    }
    join_path(app_dir, "device_config.json")
}

/// The three records never share a file: placed in one directory, their
/// file names give three different paths.
pub proof fn lemma_record_paths_differ(
    dir: Seq<char>,
    data: Seq<char>,
    email: Seq<char>,
    device: Seq<char>,
)
    requires
        placed_in(data, dir, "data.json"@),
        placed_in(email, dir, "email_config.json"@),
        placed_in(device, dir, "device_config.json"@),
    ensures
        data != email,
        data != device,
        email != device,
{
    reveal_strlit("data.json");
    reveal_strlit("email_config.json");
    reveal_strlit("device_config.json");
    let n1 = "data.json"@;
    let n2 = "email_config.json"@;
    let n3 = "device_config.json"@;
    assert(data[data.len() - 6] == n1[3]);
    assert(email[email.len() - 6] == n2[11]);
    assert(device[device.len() - 6] == n3[12]);
    assert(email[email.len() - 13] == n2[4]);
    assert(device[device.len() - 13] == n3[5]);
}

} // verus!

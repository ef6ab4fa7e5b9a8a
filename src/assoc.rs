//! The association record: the registry keys and values that tie `.crs`
//! files to the launcher.
use vstd::prelude::*;
use vstd::string::StrSliceExecFns;
use vstd::string::StringExecFns;

verus! {

/// The token that the tool keeps in PATHEXT.
pub open spec fn ext_token() -> Seq<char> {
    ".CRS"@
}

/// The prefix of an extended-length path, which the shell cannot read.
pub open spec fn verbatim_prefix() -> Seq<char> {
    seq!['\\', '\\', '?', '\\']
}

/// `path` without a leading extended-length prefix.
pub open spec fn strip_verbatim(path: Seq<char>) -> Seq<char> {
    if path.len() >= 4 && path.subrange(0, 4) == verbatim_prefix() {
        path.subrange(4, path.len() as int)
    } else {
        path
    }
}

/// The command that the shell runs to open a script: the launcher, quoted,
/// then the script and the rest of the arguments.
pub open spec fn command_line(handler: Seq<char>) -> Seq<char> {
    "\""@ + handler + "\" \"%1\" %*"@
}

/// The key, under the classes root, that the `i`-th install write creates.
pub open spec fn write_key(i: int) -> Seq<char> {
    if i == 0 {
        ".crs"@
    } else if i == 1 {
        "CargoScript.Crs"@
    } else {
        "CargoScript.Crs\\shell\\open\\command"@
    }
}

/// The default value that the `i`-th install write sets.
pub open spec fn write_data(i: int, handler: Seq<char>) -> Seq<char> {
    if i == 0 {
        "CargoScript.Crs"@
    } else if i == 1 {
        "Cargo Script"@
    } else {
        command_line(handler)
    }
}

/// The number of install writes.
pub open spec fn n_writes() -> nat {
    3
}

/// The key that the `i`-th uninstall step deletes: leaf first, the
/// extension's mapping to the ProgID last.
pub open spec fn delete_key(i: int) -> Seq<char> {
    if i == 0 {
        "CargoScript.Crs\\shell\\open\\command"@
    } else if i == 1 {
        "CargoScript.Crs\\shell\\open"@
    } else if i == 2 {
        "CargoScript.Crs\\shell"@
    } else if i == 3 {
        "CargoScript.Crs"@
    } else {
        ".crs"@
    }
}

/// The number of uninstall deletions.
pub open spec fn n_deletes() -> nat {
    5
}

/// The PATHEXT token in the form in which it is added.
pub fn ext_token_text() -> (r: String)
    ensures
        r@ == ext_token(),
{
    String::from_str(".CRS")
}

/// The launcher path as the shell can read it: an extended-length prefix
/// taken off.
pub fn handler_path(path: &str) -> (r: String)
    ensures
        r@ == strip_verbatim(path@),
{
    let n = path.unicode_len();
    if n >= 4 && path.get_char(0) == '\\' && path.get_char(1) == '\\' && path.get_char(2) == '?'
        && path.get_char(3) == '\\' {
        assert(path@.subrange(0, 4) =~= verbatim_prefix());
        String::from_str(path.substring_char(4, n))
    } else {
        assert(n >= 4 ==> path@.subrange(0, 4)[0] == path@[0]);
        assert(n >= 4 ==> path@.subrange(0, 4)[1] == path@[1]);
        assert(n >= 4 ==> path@.subrange(0, 4)[2] == path@[2]);
        assert(n >= 4 ==> path@.subrange(0, 4)[3] == path@[3]);
        String::from_str(path)
    }
}

/// The open command for `handler`.
pub fn command_for(handler: &str) -> (r: String)
    ensures
        r@ == command_line(handler@),
{
    String::from_str("\"").concat(handler).concat("\" \"%1\" %*")
}

/// The key that the `i`-th install write creates.
pub fn write_key_text(i: usize) -> (r: String)
    requires
        i < n_writes(),
    ensures
        r@ == write_key(i as int),
{
    if i == 0 {
        String::from_str(".crs")
    } else if i == 1 {
        String::from_str("CargoScript.Crs")
    } else {
        String::from_str("CargoScript.Crs\\shell\\open\\command")
    }
}

/// The value that the `i`-th install write sets.
pub fn write_data_text(i: usize, handler: &str) -> (r: String)
    requires
        i < n_writes(),
    ensures
        r@ == write_data(i as int, handler@),
{
    if i == 0 {
        String::from_str("CargoScript.Crs")
    } else if i == 1 {
        String::from_str("Cargo Script")
    } else {
        command_for(handler)
    }
}

/// The key that the `i`-th uninstall step deletes.
pub fn delete_key_text(i: usize) -> (r: String)
    requires
        i < n_deletes(),
    ensures
        r@ == delete_key(i as int),
{
    if i == 0 {
        String::from_str("CargoScript.Crs\\shell\\open\\command")
    } else if i == 1 {
        String::from_str("CargoScript.Crs\\shell\\open")
    } else if i == 2 {
        String::from_str("CargoScript.Crs\\shell")
    } else if i == 3 {
        String::from_str("CargoScript.Crs")
    } else {
        String::from_str(".crs")
    }
}

} // verus!

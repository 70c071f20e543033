//! `keymapper server`: deciding whether a start succeeded, and recognising
//! the daemon's process by its executable name.
use vstd::prelude::*;

use vstd::string::StringExecFns;

use crate::text::{str_chars, str_encode_utf16, utf16_encode};
use crate::util::platform::appnames_cmd::units_before_nul;

verus! {

/// The executable name of the daemon.
pub const DAEMON_NAME: &'static str = "keymapperd";

/// The message for a daemon that was spawned but is gone again.
pub open spec fn exited_message() -> Seq<char> {
    "daemon started but exited immediately"@
}

/// The outcome of `start`: a failed spawn keeps its error; a spawn after
/// which the daemon is no longer running is an error too.
/// `still_running` is whether the daemon was found running after the grace
/// period that follows a successful spawn.
pub fn verify_start(spawn_result: Result<(), String>, still_running: bool) -> (r: Result<
    (),
    String,
>)
    ensures
        spawn_result is Err ==> r == spawn_result,
        spawn_result is Ok && still_running ==> r is Ok,
        spawn_result is Ok && !still_running ==> r is Err && r->Err_0@ == exited_message(),
{
    match spawn_result {
        Err(e) => Err(e),
        Ok(()) => {
            if !still_running {
                return Err(String::from_str("daemon started but exited immediately"));
            }
            Ok(())
        },
    }
}

/// `s` ends with `suffix`.
pub open spec fn ends_with(s: Seq<char>, suffix: Seq<char>) -> bool {
    suffix.len() <= s.len() && s.subrange(s.len() - suffix.len(), s.len() as int) == suffix
}

/// The image name under which Windows lists a process started from `name`:
/// `name` itself when it already ends in `.exe`, else `name` with `.exe`
/// appended.
pub open spec fn image_name(name: Seq<char>) -> Seq<char> {
    if ends_with(name, ".exe"@) {
        name
    } else {
        name + ".exe"@
    }
}

/// The image name for `name`.
pub fn exe_image_name(name: &str) -> (r: String)
    ensures
        r@ == image_name(name@),
{
    let v = str_chars(name);
    let n = v.len();
    proof {
        reveal_strlit(".exe");
    }
    let has_ext = n >= 4 && v[n - 4] == '.' && v[n - 3] == 'e' && v[n - 2] == 'x' && v[n - 1]
        == 'e';
    assert(has_ext == ends_with(name@, ".exe"@)) by {
        if n >= 4 {
            if has_ext {
                assert(name@.subrange(n - 4, n as int) =~= ".exe"@);
            }
            if name@.subrange(n - 4, n as int) == ".exe"@ {
                assert(name@.subrange(n - 4, n as int)[0] == '.');
                assert(name@.subrange(n - 4, n as int)[1] == 'e');
                assert(name@.subrange(n - 4, n as int)[2] == 'x');
                assert(name@.subrange(n - 4, n as int)[3] == 'e');
            }
        }
    }
    let mut image = String::from_str(name);
    if !has_ext {
        image.append(".exe");
    }
    image
}

/// A string as a NUL-terminated wide (UTF-16) string for Windows calls.
pub fn to_wide(s: &str) -> (r: Vec<u16>)
    ensures
        r@ == utf16_encode(s@).push(0),
{
    let mut wide = str_encode_utf16(s);
    wide.push(0);
    wide
}

/// The length of the part of `a` before its first zero unit.
fn units_len(a: &[u16]) -> (n: usize)
    ensures
        n <= a@.len(),
        a@.take(n as int) == units_before_nul(a@),
{
    let mut p: usize = 0;
    while p < a.len() && a[p] != 0
        invariant
            p <= a@.len(),
            forall|k: int| 0 <= k < p ==> a@[k] != 0,
        decreases a@.len() - p,
    {
        p = p + 1;
    }
    proof {
        if p < a@.len() {
            assert(crate::util::platform::appnames_cmd::is_first_zero(a@, p as int));
            let q = choose|q: int| crate::util::platform::appnames_cmd::is_first_zero(a@, q);
            assert(q == p) by {
                if q < p {
                    assert(a@[q] != 0);
                } else if q > p {
                    assert(a@[p as int] != 0);
                }
            }
        } else {
            assert(!exists|q: int| crate::util::platform::appnames_cmd::is_first_zero(a@, q));
            assert(a@.take(p as int) =~= a@);
        }
    }
    p
}

/// Compare two NUL-terminated wide strings, each up to its first zero unit.
pub fn wide_eq(a: &[u16], b: &[u16]) -> (r: bool)
    ensures
        r == (units_before_nul(a@) == units_before_nul(b@)),
{
    let a_len = units_len(a);
    let b_len = units_len(b);
    if a_len != b_len {
        return false;
    }
    let mut i: usize = 0;
    while i < a_len
        invariant
            a_len == b_len,
            a@.take(a_len as int) == units_before_nul(a@),
            b@.take(b_len as int) == units_before_nul(b@),
            a_len <= a@.len(),
            b_len <= b@.len(),
            i <= a_len,
            forall|k: int| 0 <= k < i ==> a@[k] == b@[k],
        decreases a_len - i,
    {
        if a[i] != b[i] {
            assert(units_before_nul(a@)[i as int] != units_before_nul(b@)[i as int]);
            return false;
        }
        i = i + 1;
    }
    assert(units_before_nul(a@) =~= units_before_nul(b@));
    true
}

/// Whether one of the listed executable names (as the process snapshot
/// gives them) is the image name of the daemon `name`.
pub fn image_listed(exe_files: &Vec<Vec<u16>>, name: &str) -> (r: bool)
    ensures
        r == exists|i: int|
            0 <= i < exe_files@.len() && units_before_nul(#[trigger] exe_files@[i]@)
                == units_before_nul(utf16_encode(image_name(name@)).push(0)),
{
    let image = exe_image_name(name);
    let target = to_wide(image.as_str());
    let mut i: usize = 0;
    while i < exe_files.len()
        invariant
            i <= exe_files@.len(),
            target@ == utf16_encode(image_name(name@)).push(0),
            forall|j: int|
                0 <= j < i ==> units_before_nul(#[trigger] exe_files@[j]@) != units_before_nul(
                    target@,
                ),
        decreases exe_files@.len() - i,
    {
        if wide_eq(exe_files[i].as_slice(), target.as_slice()) {
            return true;
        }
        i = i + 1;
    }
    false
}

/// The message for a daemon that could not be spawned.
pub fn spawn_failure(name: &str) -> (r: String)
    ensures
        r@ == "failed to start "@ + name@,
{
    let mut msg = String::from_str("failed to start ");
    msg.append(name);
    msg
}

} // verus!

//! The build orchestrator's decision logic: the fixed dependency-archive
//! set, the external compiler's argument list, the source text handed on
//! its input stream, the classification of its exit, and the check whether
//! the portable target is already installed.
//!
//! The caller owns the processes and the filesystem: it materializes the
//! archives, spawns the compiler with exactly the arguments computed here,
//! and hands the exit status, diagnostics and output bytes back.

use vstd::prelude::*;
use vstd::string::*;
use crate::error::Error;

verus! {

/// The names of the precompiled dependency archives every generated
/// compilation unit links against.
pub fn dependency_names() -> (r: Vec<String>)
    ensures
        r@.len() == 4,
        r@[0]@ == "proc_macro2"@,
        r@[1]@ == "quote"@,
        r@[2]@ == "syn"@,
        r@[3]@ == "unicode_xid"@,
{
    let mut r: Vec<String> = Vec::new();
    r.push(String::from_str("proc_macro2"));
    r.push(String::from_str("quote"));
    r.push(String::from_str("syn"));
    r.push(String::from_str("unicode_xid"));
    r
}

/// The canonical archive filename of a dependency.
pub fn rlib_file_name(lib: &str) -> (r: String)
    ensures
        r@ == "lib"@ + lib@ + ".rlib"@,
{
    let mut r = String::from_str("lib");
    r.append(lib);
    r.append(".rlib");
    r
}

/// The full source text handed to the compiler: the caller's source,
/// followed by the fixed compatibility shim.
pub fn full_source(user: &str, shim: &str) -> (r: String)
    ensures
        r@ == user@ + shim@,
{
    let mut r = user.to_owned();
    r.append(shim);
    r
}

/// The name-to-path binding text of one dependency archive: `name=path`.
pub open spec fn dep_binding_text(d: (String, String)) -> Seq<char> {
    d.0@ + "="@ + d.1@
}

/// Whether argument list `args` holds, at the positions of dependency
/// `k`, the binding flag and the `name=path` text of `deps[k]`.
pub open spec fn dep_args_ok(args: Seq<String>, flag: Seq<char>, deps: Seq<(String, String)>, k: int) -> bool {
    args[13 + 2 * k]@ == flag && args[14 + 2 * k]@ == dep_binding_text(deps[k])
}

/// Whether `args` is the external compiler's argument list for these
/// build inputs, character for character.
pub open spec fn args_match(
    args: Seq<String>,
    out_path: Seq<char>,
    crate_name: Seq<char>,
    workspace: Seq<char>,
    dep_flag: Seq<char>,
    deps: Seq<(String, String)>,
) -> bool {
    &&& args.len() == 13 + 2 * deps.len()
    &&& args[0]@ == "-"@
    &&& args[1]@ == "-o"@
    &&& args[2]@ == out_path
    &&& args[3]@ == "--target"@
    &&& args[4]@ == "wasm32-unknown-unknown"@
    &&& args[5]@ == "--edition"@
    &&& args[6]@ == "2018"@
    &&& args[7]@ == "--crate-type"@
    &&& args[8]@ == "cdylib"@
    &&& args[9]@ == "--crate-name"@
    &&& args[10]@ == crate_name
    &&& args[11]@ == "-L"@
    &&& args[12]@ == "dependency="@ + workspace
    &&& forall|k: int| 0 <= k < deps.len() ==> #[trigger] dep_args_ok(args, dep_flag, deps, k)
}

/// The external compiler's argument list: source piped on standard input,
/// explicit output path, the portable sandboxed target, a pinned edition,
/// a dynamically loadable module as the crate kind, an explicit crate
/// name, a library search path at the scratch workspace, and one explicit
/// name-to-path binding per dependency archive (`dep_flag` is the
/// compiler's flag for such a binding).
pub fn compiler_args(
    out_path: &str,
    crate_name: &str,
    workspace: &str,
    dep_flag: &str,
    deps: &Vec<(String, String)>,
) -> (r: Vec<String>)
    ensures
        args_match(r@, out_path@, crate_name@, workspace@, dep_flag@, deps@),
{
    let mut r: Vec<String> = Vec::new();
    r.push(String::from_str("-"));
    r.push(String::from_str("-o"));
    r.push(out_path.to_owned());
    r.push(String::from_str("--target"));
    r.push(String::from_str("wasm32-unknown-unknown"));
    r.push(String::from_str("--edition"));
    r.push(String::from_str("2018"));
    r.push(String::from_str("--crate-type"));
    r.push(String::from_str("cdylib"));
    r.push(String::from_str("--crate-name"));
    r.push(crate_name.to_owned());
    r.push(String::from_str("-L"));
    let mut search = String::from_str("dependency=");
    search.append(workspace);
    r.push(search);
    let mut j: usize = 0;
    while j < deps.len()
        invariant
            j <= deps.len(),
            r@.len() == 13 + 2 * j,
            r@[0]@ == "-"@,
            r@[1]@ == "-o"@,
            r@[2]@ == out_path@,
            r@[3]@ == "--target"@,
            r@[4]@ == "wasm32-unknown-unknown"@,
            r@[5]@ == "--edition"@,
            r@[6]@ == "2018"@,
            r@[7]@ == "--crate-type"@,
            r@[8]@ == "cdylib"@,
            r@[9]@ == "--crate-name"@,
            r@[10]@ == crate_name@,
            r@[11]@ == "-L"@,
            r@[12]@ == "dependency="@ + workspace@,
            forall|k: int| 0 <= k < j ==> #[trigger] dep_args_ok(r@, dep_flag@, deps@, k),
        decreases deps.len() - j,
    {
        let ghost pre = r@;
        r.push(dep_flag.to_owned());
        let mut binding = deps[j].0.clone();
        binding.append("=");
        binding.append(deps[j].1.as_str());
        r.push(binding);
        proof {
            assert(r@[13 + 2 * j as int]@ == dep_flag@);
            assert(r@[14 + 2 * j as int]@ == dep_binding_text(deps@[j as int]));
            assert forall|k: int| 0 <= k < j + 1 implies #[trigger] dep_args_ok(
                r@,
                dep_flag@,
                deps@,
                k,
            ) by {
                if k < j {
                    assert(dep_args_ok(pre, dep_flag@, deps@, k));
                    assert(r@[13 + 2 * k] == pre[13 + 2 * k]);
                    assert(r@[14 + 2 * k] == pre[14 + 2 * k]);
                }
            }
        }
        j += 1;
    }
    r
}

/// The orchestrator's command is deterministic: any two argument lists
/// built for the same output path, crate name, workspace, binding flag and
/// dependency set are the same list, character for character. What the
/// external compiler then does with them is outside the library's control.
pub proof fn lemma_compiler_args_deterministic(
    a: Seq<String>,
    b: Seq<String>,
    out_path: Seq<char>,
    crate_name: Seq<char>,
    workspace: Seq<char>,
    dep_flag: Seq<char>,
    deps: Seq<(String, String)>,
)
    requires
        args_match(a, out_path, crate_name, workspace, dep_flag, deps),
        args_match(b, out_path, crate_name, workspace, dep_flag, deps),
    ensures
        a.len() == b.len(),
        forall|i: int| 0 <= i < a.len() ==> #[trigger] a[i]@ == b[i]@,
{
    assert forall|i: int| 0 <= i < a.len() implies #[trigger] a[i]@ == b[i]@ by {
        if i >= 13 {
            let k = (i - 13) / 2;
            assert(0 <= k < deps.len());
            assert(dep_args_ok(a, dep_flag, deps, k));
            assert(dep_args_ok(b, dep_flag, deps, k));
            assert(i == 13 + 2 * k || i == 14 + 2 * k);
        }
    }
}

/// The outcome of one external-compiler run: the artifact's bytes exactly
/// when the compiler succeeded and its output could be read; otherwise
/// `CompilationFailed`, carrying the diagnostic text only under verbose
/// diagnostics.
pub fn build_outcome(
    status_ok: bool,
    artifact: Option<Vec<u8>>,
    diagnostics: &str,
    verbose: bool,
) -> (r: Result<Vec<u8>, Error>)
    ensures
        r is Ok <==> status_ok && artifact is Some,
        (r matches Ok(v) ==> artifact matches Some(a) && v == a),
        (r matches Err(e) ==> e@ == (crate::error::ErrorV::CompilationFailed {
            detail: if verbose {
                Some(diagnostics@)
            } else {
                None
            },
        })),
{
    if status_ok {
        match artifact {
            Some(a) => Ok(a),
            None => Err(
                Error::CompilationFailed {
                    detail: if verbose {
                        Some(diagnostics.to_owned())
                    } else {
                        None
                    },
                },
            ),
        }
    } else {
        Err(
            Error::CompilationFailed {
                detail: if verbose {
                    Some(diagnostics.to_owned())
                } else {
                    None
                },
            },
        )
    }
}

/// Whether a byte is horizontal or vertical whitespace.
pub open spec fn is_space(b: u8) -> bool {
    b == 32 || b == 9 || b == 13 || b == 10
}

/// A byte sequence with leading and trailing whitespace removed.
pub open spec fn trimmed(s: Seq<u8>) -> Seq<u8>
    decreases s.len(),
{
    if s.len() == 0 {
        s
    } else if is_space(s[0]) {
        trimmed(s.drop_first())
    } else if is_space(s.last()) {
        trimmed(s.drop_last())
    } else {
        s
    }
}

/// Whether a byte is horizontal or vertical whitespace.
fn is_space_x(b: u8) -> (r: bool)
    ensures
        r == is_space(b),
{
    b == 32 || b == 9 || b == 13 || b == 10
}

/// A copy of `v` with leading and trailing whitespace removed.
fn trim_bytes(v: &Vec<u8>) -> (r: Vec<u8>)
    ensures
        r@ == trimmed(v@),
{
    let mut lo: usize = 0;
    let mut hi: usize = v.len();
    proof {
        assert(v@.subrange(0, v@.len() as int) =~= v@);
    }
    while lo < hi && is_space_x(v[lo])
        invariant
            0 <= lo <= hi <= v.len(),
            trimmed(v@) == trimmed(v@.subrange(lo as int, hi as int)),
        decreases hi - lo,
    {
        proof {
            assert(v@.subrange(lo as int, hi as int).drop_first() =~= v@.subrange(
                lo as int + 1,
                hi as int,
            ));
        }
        lo += 1;
    }
    while lo < hi && is_space_x(v[hi - 1])
        invariant
            0 <= lo <= hi <= v.len(),
            trimmed(v@) == trimmed(v@.subrange(lo as int, hi as int)),
            lo < hi ==> !is_space(v@[lo as int]),
        decreases hi - lo,
    {
        proof {
            assert(v@.subrange(lo as int, hi as int).drop_last() =~= v@.subrange(
                lo as int,
                hi as int - 1,
            ));
        }
        hi -= 1;
    }
    let mut r: Vec<u8> = Vec::new();
    let mut k: usize = lo;
    while k < hi
        invariant
            lo <= k <= hi <= v.len(),
            r@ == v@.subrange(lo as int, k as int),
        decreases hi - k,
    {
        r.push(v[k]);
        proof {
            assert(r@ =~= v@.subrange(lo as int, k as int + 1));
        }
        k += 1;
    }
    proof {
        assert(r@ =~= v@.subrange(lo as int, hi as int));
        assert(trimmed(v@.subrange(lo as int, hi as int)) == v@.subrange(lo as int, hi as int));
    }
    r
}

/// Whether two byte vectors hold the same bytes.
fn bytes_equal(a: &Vec<u8>, b: &Vec<u8>) -> (r: bool)
    ensures
        r == (a@ == b@),
{
    if a.len() != b.len() {
        proof {
            assert(a@.len() != b@.len());
        }
        return false;
    }
    let mut k: usize = 0;
    while k < a.len()
        invariant
            k <= a.len(),
            a@.len() == b@.len(),
            forall|m: int| 0 <= m < k ==> a@[m] == b@[m],
        decreases a.len() - k,
    {
        if a[k] != b[k] {
            return false;
        }
        k += 1;
    }
    proof {
        assert(a@ =~= b@);
    }
    true
}

/// Whether the target listing — one installed target per line, as the
/// environment-bootstrap tool prints it — already names the wanted target.
pub fn target_installed(lines: &Vec<Vec<u8>>, target: &Vec<u8>) -> (r: bool)
    ensures
        r == exists|k: int| 0 <= k < lines@.len() && trimmed(#[trigger] lines@[k]@) == target@,
{
    let mut j: usize = 0;
    while j < lines.len()
        invariant
            j <= lines.len(),
            forall|k: int| 0 <= k < j ==> trimmed(#[trigger] lines@[k]@) != target@,
        decreases lines.len() - j,
    {
        let t = trim_bytes(&lines[j]);
        if bytes_equal(&t, target) {
            return true;
        }
        j += 1;
    }
    false
}

} // verus!

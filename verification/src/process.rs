//! What a child process is given for each of its stdio.
use vstd::prelude::*;
use crate::c_string::{c_string, c_string_array, first_nul, has_nul, NulError};
use crate::flags::{ProcessFlags, StdioFlags};
use vstd::string::StringSliceAdditionalSpecFns;

verus! {

/// What is passed for one stdio of a child process: a stream (of the type `S` by which the
/// caller holds streams) or a file descriptor.
pub enum StdioType<S> {
    /// A stream.
    Stream(S),
    /// A file descriptor.
    Fd(i32),
}

/// Container for each stdio handle or fd passed to a child process.
pub struct StdioContainer<S> {
    flags: StdioFlags,
    data: StdioType<S>,
}

impl<S> StdioContainer<S> {
    /// How the stdio is passed.
    pub closed spec fn spec_flags(&self) -> StdioFlags {
        self.flags
    }

    /// The stream or descriptor that is passed.
    pub closed spec fn spec_data(&self) -> &StdioType<S> {
        &self.data
    }

    /// A container passing `data` in the way that `flags` describes.
    pub fn new(flags: StdioFlags, data: StdioType<S>) -> (r: StdioContainer<S>)
        ensures
            r.spec_flags() == flags,
            *r.spec_data() == data,
    {
        StdioContainer { flags, data }
    }

    /// How the stdio is passed.
    pub fn flags(&self) -> (r: StdioFlags)
        ensures
            r == self.spec_flags(),
    {
        self.flags
    }

    /// The stream or descriptor that is passed.
    pub fn data(&self) -> (r: &StdioType<S>)
        ensures
            *r == *self.spec_data(),
    {
        &self.data
    }
}

/// Options for spawning a process. `C` is the type of the callback made when the process exits,
/// `S` the type by which the caller holds streams.
pub struct ProcessOptions<'a, C, S> {
    /// Called after the process exits.
    pub exit_cb: Option<C>,
    /// Path to the program to execute.
    pub file: &'a str,
    /// Command line arguments; `args[0]` should be the path to the program.
    pub args: &'a [&'a str],
    /// The environment of the child; when `None` the environment of the parent is used.
    pub env: Option<&'a [&'a str]>,
    /// The directory the child executes in; when `None` that of the parent.
    pub cwd: Option<&'a str>,
    /// Flags that control how the process is spawned.
    pub flags: ProcessFlags,
    /// What the child is given for each stdio: `stdio[0]` is its stdin, `stdio[1]` its stdout,
    /// `stdio[2]` its stderr.
    pub stdio: &'a [StdioContainer<S>],
    /// The user id that the child takes when `SETUID` is set.
    pub uid: u32,
    /// The group id that the child takes when `SETGID` is set.
    pub gid: u32,
}

/// The strings of a spawn request in the NUL-terminated form in which libuv takes them.
pub struct SpawnStrings {
    /// The program.
    pub file: Vec<u8>,
    /// The arguments.
    pub args: Vec<Vec<u8>>,
    /// The environment, when one is given.
    pub env: Option<Vec<Vec<u8>>>,
    /// The working directory, when one is given.
    pub cwd: Option<Vec<u8>>,
}

/// The bytes of the strings of `strs`.
pub open spec fn bytes_of(strs: Seq<&str>) -> Seq<Seq<u8>> {
    strs.map_values(|s: &str| s.spec_bytes())
}

/// The strings of a spawn request in the order in which they are checked: the program, the
/// arguments, the environment (when given) and the working directory (when given).
pub open spec fn spawn_string_order<C, S>(options: &ProcessOptions<C, S>) -> Seq<Seq<u8>> {
    seq![options.file.spec_bytes()] + bytes_of(options.args@) + match options.env {
        Some(env) => bytes_of(env@),
        None => Seq::empty(),
    } + match options.cwd {
        Some(cwd) => seq![cwd.spec_bytes()],
        None => Seq::empty(),
    }
}

/// The NUL-terminated forms of the strings `items`.
pub open spec fn terminated(items: Seq<Vec<u8>>, strs: Seq<&str>) -> bool {
    &&& items.len() == strs.len()
    &&& forall|k: int| 0 <= k < strs.len() ==> #[trigger] items[k]@ == strs[k].spec_bytes().push(0)
}

/// The strings of the spawn request `options` in NUL-terminated form, or the error of the first
/// of them, in the order program, arguments, environment, working directory, that holds a NUL
/// byte.
pub fn spawn_strings<C, S>(options: &ProcessOptions<C, S>) -> (r: Result<SpawnStrings, NulError>)
    ensures
        r is Ok <==> forall|k: int|
            0 <= k < spawn_string_order(options).len() ==> !has_nul(
                #[trigger] spawn_string_order(options)[k],
            ),
        r matches Ok(ss) ==> {
            &&& ss.file@ == options.file.spec_bytes().push(0)
            &&& terminated(ss.args@, options.args@)
            &&& (ss.env is Some <==> options.env is Some)
            &&& (ss.env matches Some(e) ==> terminated(e@, options.env.unwrap()@))
            &&& (ss.cwd is Some <==> options.cwd is Some)
            &&& (ss.cwd matches Some(c) ==> c@ == options.cwd.unwrap().spec_bytes().push(0))
        },
        r matches Err(e) ==> exists|k: int|
            0 <= k < spawn_string_order(options).len() && first_nul(
                #[trigger] spawn_string_order(options)[k],
                e.position as int,
            ) && forall|j: int| 0 <= j < k ==> !has_nul(#[trigger] spawn_string_order(options)[j]),
{
    let ghost order = spawn_string_order(options);
    let ghost fb = seq![options.file.spec_bytes()];
    let ghost ab = bytes_of(options.args@);
    let ghost eb = match options.env {
        Some(env) => bytes_of(env@),
        None => Seq::<Seq<u8>>::empty(),
    };
    let ghost cb = match options.cwd {
        Some(cwd) => seq![cwd.spec_bytes()],
        None => Seq::<Seq<u8>>::empty(),
    };
    assert(order =~= fb + ab + eb + cb);
    let file = match c_string(options.file) {
        Ok(v) => v,
        Err(e) => {
            assert(order[0] == options.file.spec_bytes());
            return Err(e);
        },
    };
    let args = match c_string_array(options.args) {
        Ok(v) => v,
        Err(e) => {
            let ghost k = choose|k: int|
                0 <= k < options.args@.len() && first_nul(
                    #[trigger] options.args@[k].spec_bytes(),
                    e.position as int,
                ) && forall|j: int| 0 <= j < k ==> !has_nul(#[trigger] options.args@[j].spec_bytes());
            assert(order[1 + k] == options.args@[k].spec_bytes());
            assert forall|j: int| 0 <= j < 1 + k implies !has_nul(#[trigger] order[j]) by {
                if j > 0 {
                    assert(order[j] == options.args@[j - 1].spec_bytes());
                }
            }
            return Err(e);
        },
    };
    let env = match options.env {
        Some(env) => match c_string_array(env) {
            Ok(v) => Some(v),
            Err(e) => {
                let ghost k = choose|k: int|
                    0 <= k < env@.len() && first_nul(#[trigger] env@[k].spec_bytes(), e.position as int)
                        && forall|j: int| 0 <= j < k ==> !has_nul(#[trigger] env@[j].spec_bytes());
                let ghost base = 1 + options.args@.len();
                assert(order[base + k] == env@[k].spec_bytes());
                assert forall|j: int| 0 <= j < base + k implies !has_nul(#[trigger] order[j]) by {
                    if j == 0 {
                    } else if j < base {
                        assert(order[j] == options.args@[j - 1].spec_bytes());
                    } else {
                        assert(order[j] == env@[j - base].spec_bytes());
                    }
                }
                return Err(e);
            },
        },
        None => None,
    };
    let cwd = match options.cwd {
        Some(cwd) => match c_string(cwd) {
            Ok(v) => Some(v),
            Err(e) => {
                let ghost last = order.len() - 1;
                assert(order[last] == cwd.spec_bytes());
                assert forall|j: int| 0 <= j < last implies !has_nul(#[trigger] order[j]) by {
                    let base = 1 + options.args@.len();
                    if j == 0 {
                    } else if j < base {
                        assert(order[j] == options.args@[j - 1].spec_bytes());
                    } else {
                        assert(order[j] == options.env.unwrap()@[j - base].spec_bytes());
                    }
                }
                return Err(e);
            },
        },
        None => None,
    };
    assert forall|k: int| 0 <= k < order.len() implies !has_nul(#[trigger] order[k]) by {
        let base = 1 + options.args@.len();
        if k == 0 {
        } else if k < base {
            assert(order[k] == options.args@[k - 1].spec_bytes());
        } else if options.env is Some && k < base + options.env.unwrap()@.len() {
            assert(order[k] == options.env.unwrap()@[k - base].spec_bytes());
        } else {
        }
    }
    Ok(SpawnStrings { file, args, env, cwd })
}

} // verus!

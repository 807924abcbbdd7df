//! Unlocking a worker account's keychain for one run.
use vstd::prelude::*;
use vstd::string::*;
use vstd::utf8::{decode_utf8, valid_utf8};
use crate::error::{coded, protocol_code, protocol_refusal, WorkerError};
use crate::outside::text_from_utf8;
use crate::text::{bytes_eq, text_eq, texts, utf8};
use crate::words::{lines, split_lines};

verus! {

pub const PASSWORD_ENV_NAME: &'static str = "MAC_WORKER_KEYCHAIN_PASSWORD";

pub const PATH_ENV_NAME: &'static str = "MAC_WORKER_KEYCHAIN_PATH";

pub const DEFAULT_KEYCHAIN_RELATIVE_PATH: &'static str = "Library/Keychains/login.keychain-db";

pub const UNLOCK_FAILED_REASON: &'static str = "keychain unlock failed";

pub const KEYCHAIN_LOCKED_REASON: &'static str = "keychain locked";

pub const SECURITY_PROGRAM: &'static str = "/usr/bin/security";

pub const UNLOCK_TIMEOUT_SECONDS: u64 = 10;

pub const UNLOCK_OUTPUT_LIMIT: usize = 4096;

/// One variable of an environment, in the system's bytes.
pub struct EnvEntry {
    pub name: Vec<u8>,
    pub value: Vec<u8>,
}

/// The value of the first variable of this name among those from `at` on.
pub open spec fn env_value(entries: Seq<EnvEntry>, name: Seq<u8>, at: int) -> Option<Seq<u8>>
    decreases entries.len() - at,
{
    if at >= entries.len() {
        None
    } else if entries[at].name@ == name {
        Some(entries[at].value@)
    } else {
        env_value(entries, name, at + 1)
    }
}

fn copy_bytes(bytes: &[u8]) -> (copy: Vec<u8>)
    ensures
        copy@ == bytes@,
{
    let mut copy: Vec<u8> = Vec::new();
    copy.extend_from_slice(bytes);
    assert(copy@ =~= bytes@);
    copy
}

fn find_value(entries: &Vec<EnvEntry>, name: &str) -> (value: Option<Vec<u8>>)
    ensures
        (match value {
            Some(held) => Some(held@),
            None => None,
        }) == env_value(entries@, utf8(name@), 0),
{
    let mut at: usize = 0;
    while at < entries.len()
        invariant
            at <= entries@.len(),
            env_value(entries@, utf8(name@), 0) == env_value(entries@, utf8(name@), at as int),
        decreases entries.len() - at,
    {
        if bytes_eq(entries[at].name.as_slice(), name.as_bytes()) {
            return Some(copy_bytes(entries[at].value.as_slice()));
        }
        at += 1;
    }
    None
}

/// A relative path below a directory.
pub open spec fn path_below(directory: Seq<u8>, relative: Seq<u8>) -> Seq<u8> {
    if directory.len() == 0 || directory.last() == 0x2f {
        directory + relative
    } else {
        directory.push(0x2f) + relative
    }
}

/// Which keychain to unlock, and how. Neither part may be shown.
pub struct KeychainUnlockConfig {
    pub password: Vec<u8>,
    pub path: Vec<u8>,
}

impl KeychainUnlockConfig {
    /// What a run's environment asks for: nothing without a password; else the
    /// keychain that it names, or the account's login keychain.
    pub fn from_entries(entries: &Vec<EnvEntry>, home: &[u8]) -> (config: Option<
        KeychainUnlockConfig,
    >)
        ensures
            config is Some <==> env_value(entries@, utf8(PASSWORD_ENV_NAME@), 0) is Some,
            config matches Some(held) ==> {
                &&& env_value(entries@, utf8(PASSWORD_ENV_NAME@), 0) == Some(held.password@)
                &&& held.path@ == (match env_value(entries@, utf8(PATH_ENV_NAME@), 0) {
                    Some(path) => path,
                    None => path_below(home@, utf8(DEFAULT_KEYCHAIN_RELATIVE_PATH@)),
                })
            },
    {
        let password = match find_value(entries, PASSWORD_ENV_NAME) {
            Some(value) => value,
            None => {
                return None;
            },
        };
        let path = match find_value(entries, PATH_ENV_NAME) {
            Some(value) => value,
            None => {
                let mut below = copy_bytes(home);
                if below.len() > 0 && below[below.len() - 1] != 0x2f {
                    below.push(0x2f);
                }
                below.extend_from_slice(DEFAULT_KEYCHAIN_RELATIVE_PATH.as_bytes());
                assert(below@ =~= path_below(home@, utf8(DEFAULT_KEYCHAIN_RELATIVE_PATH@)));
                below
            },
        };
        Some(KeychainUnlockConfig { password, path })
    }

    pub fn password(&self) -> (password: &[u8])
        ensures
            password@ == self.password@,
    {
        self.password.as_slice()
    }

    pub fn path(&self) -> (path: &[u8])
        ensures
            path@ == self.path@,
    {
        self.path.as_slice()
    }

    /// The arguments of the unlocking program: what it is to do, and to which
    /// keychain.
    pub fn unlock_arguments(&self) -> (arguments: Vec<Vec<u8>>)
        ensures
            arguments@.len() == 2,
            arguments@[0]@ == utf8("unlock-keychain"@),
            arguments@[1]@ == self.path@,
    {
        let mut arguments: Vec<Vec<u8>> = Vec::new();
        arguments.push(copy_bytes("unlock-keychain".as_bytes()));
        arguments.push(copy_bytes(self.path.as_slice()));
        arguments
    }

    /// What the unlocking program reads: the password and a line feed, so that
    /// the password never stands in its arguments.
    pub fn unlock_input(&self) -> (input: Vec<u8>)
        ensures
            input@ == self.password@.push(0x0a),
    {
        let mut input = copy_bytes(self.password.as_slice());
        input.push(0x0a);
        input
    }
}

/// The names that a task's environment may not set.
pub fn is_reserved_env_name(name: &str) -> (reserved: bool)
    ensures
        reserved == (name@ == PASSWORD_ENV_NAME@ || name@ == PATH_ENV_NAME@),
{
    text_eq(name, PASSWORD_ENV_NAME) || text_eq(name, PATH_ENV_NAME)
}

/// The first line of a program's output, where the output is text and the line
/// is not empty.
pub open spec fn first_line(output: Seq<u8>) -> Option<Seq<char>> {
    if valid_utf8(output) && lines(decode_utf8(output)).len() > 0 && lines(
        decode_utf8(output),
    )[0].len() > 0 {
        Some(lines(decode_utf8(output))[0])
    } else {
        None
    }
}

fn first_line_of(output: &[u8]) -> (line: Option<String>)
    ensures
        (match line {
            Some(held) => Some(held@),
            None => None,
        }) == first_line(output@),
{
    let text = match text_from_utf8(copy_bytes(output)) {
        Some(text) => text,
        None => {
            return None;
        },
    };
    let found = split_lines(text.as_str());
    if found.len() == 0 {
        return None;
    }
    assert(texts(found@)[0] == found@[0]@);
    let line = found[0].clone();
    if line.as_str().is_empty() {
        None
    } else {
        Some(line)
    }
}

/// What a failed program said: the first line of its errors, or else of its
/// output.
pub fn first_output_line(stderr: &[u8], stdout: &[u8]) -> (line: Option<String>)
    ensures
        (match line {
            Some(held) => Some(held@),
            None => None,
        }) == (if first_line(stderr@) is Some {
            first_line(stderr@)
        } else {
            first_line(stdout@)
        }),
{
    match first_line_of(stderr) {
        Some(line) => Some(line),
        None => first_line_of(stdout),
    }
}

/// What becomes of an unlocking: done where the program ran and ended well, else
/// the error of a keychain that stays locked. `ended_well` is absent where the
/// program could not be run to its end.
pub fn unlock_outcome(ended_well: Option<bool>, reason: Option<&str>) -> (result: Result<(), WorkerError>)
    ensures
        result is Ok <==> ended_well == Some(true),
        result matches Err(error) ==> locked_error(
            error,
            match (ended_well, reason) {
                (Some(_), Some(line)) => line@,
                _ => ""@,
            },
        ),
{
    match ended_well {
        Some(true) => Ok(()),
        Some(false) => Err(unlock_failure(reason)),
        None => Err(unlock_failure(None)),
    }
}

/// The error of a keychain that stays locked, for this reason, if any.
pub open spec fn locked_error(error: WorkerError, reason: Seq<char>) -> bool {
    protocol_refusal(
        error,
        coded(
            "KEYCHAIN_UNLOCK_FAILED"@,
            if reason.len() > 0 {
                UNLOCK_FAILED_REASON@ + ": "@ + reason
            } else {
                UNLOCK_FAILED_REASON@
            },
        ),
    )
}

/// The error of a keychain that stays locked. `reason` is what the program
/// said, with every secret taken out of it.
pub fn unlock_failure(reason: Option<&str>) -> (error: WorkerError)
    ensures
        locked_error(
            error,
            match reason {
                Some(line) => line@,
                None => ""@,
            },
        ),
{
    proof {
        reveal_strlit("");
    }
    match reason {
        Some(line) => {
            if line.is_empty() {
                protocol_code("KEYCHAIN_UNLOCK_FAILED", UNLOCK_FAILED_REASON)
            } else {
                let message = UNLOCK_FAILED_REASON.to_owned().concat(": ").concat(line);
                protocol_code("KEYCHAIN_UNLOCK_FAILED", message.as_str())
            }
        },
        None => protocol_code("KEYCHAIN_UNLOCK_FAILED", UNLOCK_FAILED_REASON),
    }
}

} // verus!

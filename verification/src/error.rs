//! Error kinds of the manager and their client-facing messages.
//!
//! The broker hands errors to clients as plain strings; `error_message`
//! builds exactly the string each kind carries, decimal ids included.

use vstd::prelude::*;
use vstd::string::StringExecFns;

verus! {

/// Everything a manager operation can fail with.
///
/// `FlowConnected` never reaches a client: it carries the existing flow id
/// of a duplicate connect and is turned back into success before leaving
/// the connect path.
#[derive(Debug, Clone, PartialEq, Eq)]
pub enum MortiseError {
    /// No object is registered under this id.
    ObjectNotFound(u32),
    /// The loaded object has no map of this name.
    MapNotFound(String),
    /// The named map holds no entry for the requested key.
    ElemNotFound(String),
    /// No flow is registered under this id.
    FlowNotFound(u32),
    /// The (pid, socket-fd) pair is already connected, as this flow id.
    FlowConnected(u32),
    /// The request carried map flags outside the accepted bits.
    InvalidBpfFlags,
    /// The ring-buffer pump thread could not be joined.
    JoinError,
    /// An operating-system call failed; the text describes it.
    Io(String),
    /// The kernel-object library failed; the text describes it.
    KernelObject(String),
    /// The request channel towards the manager thread is gone.
    ChannelSend,
    /// The reply channel from the manager thread is gone.
    ChannelRecv,
    /// A condition with its own message, such as an exhausted outer map.
    Custom(String),
}

/// The decimal digit character for `d`.
pub open spec fn spec_digit_char(d: int) -> char
    recommends
        0 <= d < 10,
{
    if d == 0 {
        '0'
    } else if d == 1 {
        '1'
    } else if d == 2 {
        '2'
    } else if d == 3 {
        '3'
    } else if d == 4 {
        '4'
    } else if d == 5 {
        '5'
    } else if d == 6 {
        '6'
    } else if d == 7 {
        '7'
    } else if d == 8 {
        '8'
    } else {
        '9'
    }
}

/// The decimal digits of `n`, most significant first, with no leading
/// zeros except for `n == 0` itself.
pub open spec fn spec_decimal(n: nat) -> Seq<char>
    decreases n,
{
    if n < 10 {
        seq![spec_digit_char(n as int)]
    } else {
        spec_decimal(n / 10) + seq![spec_digit_char((n % 10) as int)]
    }
}

/// The one-character string for a decimal digit.
fn digit_str(d: u32) -> (r: &'static str)
    requires
        d < 10,
    ensures
        r@ == seq![spec_digit_char(d as int)],
{
    proof {
        reveal_strlit("0");
        reveal_strlit("1");
        reveal_strlit("2");
        reveal_strlit("3");
        reveal_strlit("4");
        reveal_strlit("5");
        reveal_strlit("6");
        reveal_strlit("7");
        reveal_strlit("8");
        reveal_strlit("9");
    }
    let r = if d == 0 {
        "0"
    } else if d == 1 {
        "1"
    } else if d == 2 {
        "2"
    } else if d == 3 {
        "3"
    } else if d == 4 {
        "4"
    } else if d == 5 {
        "5"
    } else if d == 6 {
        "6"
    } else if d == 7 {
        "7"
    } else if d == 8 {
        "8"
    } else {
        "9"
    };
    assert(r@ =~= seq![spec_digit_char(d as int)]);
    r
}

/// Writes `n` in decimal.
pub fn u32_decimal(n: u32) -> (r: String)
    ensures
        r@ == spec_decimal(n as nat),
    decreases n,
{
    if n < 10 {
        String::from_str(digit_str(n))
    } else {
        let mut s = u32_decimal(n / 10);
        s.append(digit_str(n % 10));
        assert(s@ =~= spec_decimal(n as nat));
        s
    }
}

/// The client-facing message of each error kind.
pub open spec fn spec_error_message(e: MortiseError) -> Seq<char> {
    match e {
        MortiseError::ObjectNotFound(id) => "Object of id "@ + spec_decimal(id as nat)
            + " not found"@,
        MortiseError::MapNotFound(name) => "Map of name "@ + name@ + " not found"@,
        MortiseError::ElemNotFound(name) => "Element of Map "@ + name@ + " not found"@,
        MortiseError::FlowNotFound(id) => "Flow of id "@ + spec_decimal(id as nat) + " not found"@,
        MortiseError::FlowConnected(id) => "Flow of id "@ + spec_decimal(id as nat)
            + " already connected"@,
        MortiseError::InvalidBpfFlags => "Invalid bpf flags"@,
        MortiseError::JoinError => "Fail to join thread"@,
        MortiseError::Io(text) => "IO error: "@ + text@,
        MortiseError::KernelObject(text) => "Libbpf error: "@ + text@,
        MortiseError::ChannelSend => "Manager IPC channel send error"@,
        MortiseError::ChannelRecv => "Manager IPC channel recv error"@,
        MortiseError::Custom(text) => text@,
    }
}

/// Renders an error as the string the broker sends to the client.
pub fn error_message(e: &MortiseError) -> (r: String)
    ensures
        r@ == spec_error_message(*e),
{
    match e {
        MortiseError::ObjectNotFound(id) => {
            let mut s = String::from_str("Object of id ");
            let digits = u32_decimal(*id);
            s.append(digits.as_str());
            s.append(" not found");
            assert(s@ =~= spec_error_message(*e));
            s
        },
        MortiseError::MapNotFound(name) => {
            let mut s = String::from_str("Map of name ");
            s.append(name.as_str());
            s.append(" not found");
            assert(s@ =~= spec_error_message(*e));
            s
        },
        MortiseError::ElemNotFound(name) => {
            let mut s = String::from_str("Element of Map ");
            s.append(name.as_str());
            s.append(" not found");
            assert(s@ =~= spec_error_message(*e));
            s
        },
        MortiseError::FlowNotFound(id) => {
            let mut s = String::from_str("Flow of id ");
            let digits = u32_decimal(*id);
            s.append(digits.as_str());
            s.append(" not found");
            assert(s@ =~= spec_error_message(*e));
            s
        },
        MortiseError::FlowConnected(id) => {
            let mut s = String::from_str("Flow of id ");
            let digits = u32_decimal(*id);
            s.append(digits.as_str());
            s.append(" already connected");
            assert(s@ =~= spec_error_message(*e));
            s
        },
        MortiseError::InvalidBpfFlags => String::from_str("Invalid bpf flags"),
        MortiseError::JoinError => String::from_str("Fail to join thread"),
        MortiseError::Io(text) => {
            let mut s = String::from_str("IO error: ");
            s.append(text.as_str());
            assert(s@ =~= spec_error_message(*e));
            s
        },
        MortiseError::KernelObject(text) => {
            let mut s = String::from_str("Libbpf error: ");
            s.append(text.as_str());
            assert(s@ =~= spec_error_message(*e));
            s
        },
        MortiseError::ChannelSend => String::from_str("Manager IPC channel send error"),
        MortiseError::ChannelRecv => String::from_str("Manager IPC channel recv error"),
        MortiseError::Custom(text) => text.clone(),
    }
}

} // verus!

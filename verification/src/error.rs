//! The one error type of the library.

use vstd::prelude::*;
use vstd::string::StringExecFns;

verus! {

/// An error number of the operating system, as the lookup of users and
/// groups reports it. Nothing inside it is visible to proofs.
#[verifier::external_type_specification]
#[verifier::external_body]
pub struct ExErrno(nix::errno::Errno);

/// What can go wrong. Each variant but `Nix` and `NoError` carries the message
/// of the failure it stands for.
#[derive(Debug)]
pub enum JujikError {
    NoError,
    IO(String),
    Send(String),
    Recv(String),
    TryRecv(String),
    RecvTimeout(String),
    EFrame(String),
    Logger(String),
    Thread(String),
    Nix(nix::errno::Errno),
    SerdeJson(String),
    Other(String),
}

/// Calls `Errno`'s `to_string`, which gives the error's name and its
/// description; nothing is claimed about the text.
#[verifier::external_body]
fn errno_text(errno: &nix::errno::Errno) -> (text: String) {
    errno.to_string()
}

impl JujikError {
    /// The message that the variant carries; empty if it carries none.
    pub open spec fn carried_text(self) -> Seq<char> {
        match self {
            JujikError::NoError => Seq::empty(),
            JujikError::IO(m) => m@,
            JujikError::Send(m) => m@,
            JujikError::Recv(m) => m@,
            JujikError::TryRecv(m) => m@,
            JujikError::RecvTimeout(m) => m@,
            JujikError::EFrame(m) => m@,
            JujikError::Logger(m) => m@,
            JujikError::Thread(m) => m@,
            JujikError::Nix(_) => Seq::empty(),
            JujikError::SerdeJson(m) => m@,
            JujikError::Other(m) => m@,
        }
    }

    /// The text shown for this error: the carried message, or for an error
    /// number the operating system's wording.
    pub fn message(&self) -> (text: String)
        ensures
            !(self is Nix) ==> text@ == self.carried_text(),
    {
        match self {
            JujikError::NoError => String::new(),
            JujikError::IO(m) => m.clone(),
            JujikError::Send(m) => m.clone(),
            JujikError::Recv(m) => m.clone(),
            JujikError::TryRecv(m) => m.clone(),
            JujikError::RecvTimeout(m) => m.clone(),
            JujikError::EFrame(m) => m.clone(),
            JujikError::Logger(m) => m.clone(),
            JujikError::Thread(m) => m.clone(),
            JujikError::Nix(errno) => errno_text(errno),
            JujikError::SerdeJson(m) => m.clone(),
            JujikError::Other(m) => m.clone(),
        }
    }

    /// An `Other` error whose message is `prefix` followed by `detail`.
    pub fn other(prefix: &str, detail: &str) -> (e: Self)
        ensures
            e matches JujikError::Other(m) && m@ == prefix@ + detail@,
    {
        JujikError::Other(String::from_str(prefix).concat(detail))
    }
}

} // verus!

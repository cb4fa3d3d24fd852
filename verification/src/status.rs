use vstd::prelude::*;
use crate::numfmt::{dec_rep, u64_to_dec};

verus! {

/// Lifecycle state of a sampled process. The set of states is defined by
/// the sampling platform, so the enumeration is open: a raw code the
/// monitor does not recognize is kept as `Unknown` with its value, never
/// rejected.
#[derive(Clone, Copy, Debug, PartialEq, Eq, Structural)]
pub enum Status {
    Running,
    Sleeping,
    Idle,
    Stopped,
    Zombie,
    Unknown(u32),
}

impl Status {
    /// The status a raw platform code denotes.
    pub open spec fn of_code_spec(code: u32) -> Status {
        if code == 0 {
            Status::Running
        } else if code == 1 {
            Status::Sleeping
        } else if code == 2 {
            Status::Idle
        } else if code == 3 {
            Status::Stopped
        } else if code == 4 {
            Status::Zombie
        } else {
            Status::Unknown(code)
        }
    }

    /// Decodes the raw status code a snapshot entry carries; a code
    /// outside the recognized range degrades to `Unknown` instead of
    /// failing the record.
    pub fn from_code(code: u32) -> (r: Status)
        ensures
            r == Status::of_code_spec(code),
    {
        match code {
            0 => Status::Running,
            1 => Status::Sleeping,
            2 => Status::Idle,
            3 => Status::Stopped,
            4 => Status::Zombie,
            _ => Status::Unknown(code),
        }
    }

    /// The canonical display name of the status.
    pub open spec fn label_spec(self) -> Seq<char> {
        match self {
            Status::Running => "Running"@,
            Status::Sleeping => "Sleeping"@,
            Status::Idle => "Idle"@,
            Status::Stopped => "Stopped"@,
            Status::Zombie => "Zombie"@,
            Status::Unknown(code) => "Unknown("@ + dec_rep(code as nat) + ")"@,
        }
    }

    /// Renders the canonical display name.
    pub fn label(&self) -> (r: String)
        ensures
            r@ == self.label_spec(),
    {
        match self {
            Status::Running => "Running".to_owned(),
            Status::Sleeping => "Sleeping".to_owned(),
            Status::Idle => "Idle".to_owned(),
            Status::Stopped => "Stopped".to_owned(),
            Status::Zombie => "Zombie".to_owned(),
            Status::Unknown(code) => {
                let mut s = String::from_str("Unknown(");
                let digits = u64_to_dec(*code as u64);
                s.append(digits.as_str());
                s.append(")");
                proof {
                    assert(s@ =~= self.label_spec());
                }
                s
            },
        }
    }
}

} // verus!

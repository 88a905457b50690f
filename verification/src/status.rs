use vstd::prelude::*;

verus! {

/// Life cycle of a test, a user, a worker or the master.
#[derive(Debug)]
pub enum Status {
    Created,
    Connected,
    Running,
    Stopped,
    Finished,
    /// Running failed; the text says why.
    Error(String),
}

impl Clone for Status {
    fn clone(&self) -> (r: Self)
        ensures
            r == *self,
    {
        match self {
            Status::Created => Status::Created,
            Status::Connected => Status::Connected,
            Status::Running => Status::Running,
            Status::Stopped => Status::Stopped,
            Status::Finished => Status::Finished,
            Status::Error(message) => Status::Error(message.clone()),
        }
    }
}

impl Status {
    /// The upper-case name under which a status is shown.
    pub open spec fn label_text(self) -> Seq<char> {
        match self {
            Status::Created => "CREATED"@,
            Status::Connected => "CONNECTED"@,
            Status::Running => "RUNNING"@,
            Status::Stopped => "STOPPED"@,
            Status::Finished => "FINISHED"@,
            Status::Error(_) => "ERROR"@,
        }
    }

    /// The status after a request to finish: a stopped run stays stopped,
    /// anything else is finished.
    pub open spec fn after_finish(self) -> Status {
        match self {
            Status::Stopped => Status::Stopped,
            _ => Status::Finished,
        }
    }

    pub fn label(&self) -> (s: String)
        ensures
            s@ == self.label_text(),
    {
        match self {
            Status::Created => String::from_str("CREATED"),
            Status::Connected => String::from_str("CONNECTED"),
            Status::Running => String::from_str("RUNNING"),
            Status::Stopped => String::from_str("STOPPED"),
            Status::Finished => String::from_str("FINISHED"),
            Status::Error(_) => String::from_str("ERROR"),
        }
    }

    pub fn is_stopped(&self) -> (b: bool)
        ensures
            b <==> *self is Stopped,
    {
        match self {
            Status::Stopped => true,
            _ => false,
        }
    }
}

/// Finishing never overrides a stop: a stopped status stays stopped, any
/// other becomes finished, and finishing again changes nothing.
pub proof fn lemma_finish_respects_stop(s: Status)
    ensures
        s is Stopped ==> s.after_finish() == Status::Stopped,
        !(s is Stopped) ==> s.after_finish() == Status::Finished,
        s.after_finish().after_finish() == s.after_finish(),
{
}

} // verus!

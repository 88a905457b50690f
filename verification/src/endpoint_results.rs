use vstd::prelude::*;

use crate::text::{decimal, decimal_string};

verus! {

/// Response-time counters of one endpoint: the number of requests, their
/// total time and its integer mean.
#[derive(Clone, Copy, Debug, PartialEq, Eq, Structural)]
pub struct EndPointResults {
    pub total_requests: u32,
    pub total_response_time: u32,
    pub average_response: u32,
}

impl EndPointResults {
    pub fn new() -> (r: EndPointResults)
        ensures
            r.total_requests == 0,
            r.total_response_time == 0,
            r.average_response == 0,
    {
        EndPointResults { total_requests: 0, total_response_time: 0, average_response: 0 }
    }

    /// Records a response that took `response_time` milliseconds.
    pub fn add_response_time(&mut self, response_time: u32)
        requires
            old(self).total_requests < u32::MAX,
            old(self).total_response_time + response_time <= u32::MAX,
        ensures
            final(self).total_response_time == old(self).total_response_time + response_time,
            final(self).total_requests == old(self).total_requests + 1,
            final(self).average_response == final(self).total_response_time
                / final(self).total_requests,
    {
        self.total_response_time = self.total_response_time + response_time;
        self.total_requests = self.total_requests + 1;
        self.average_response = self.total_response_time / self.total_requests;
    }

    /// `Total Requests [n] | Total Response Time [t] | Average Response [a]`.
    pub fn summary(&self) -> (s: String)
        ensures
            s@ == "Total Requests ["@ + decimal(self.total_requests as nat)
                + "] | Total Response Time ["@ + decimal(self.total_response_time as nat)
                + "] | Average Response ["@ + decimal(self.average_response as nat) + "]"@,
    {
        let mut s = String::from_str("Total Requests [");
        s.append(decimal_string(self.total_requests as u64).as_str());
        s.append("] | Total Response Time [");
        s.append(decimal_string(self.total_response_time as u64).as_str());
        s.append("] | Average Response [");
        s.append(decimal_string(self.average_response as u64).as_str());
        s.append("]");
        s
    }
}

} // verus!

//! Capping the CPU at its lowest frequency, and putting the limit back.
//!
//! The limit in force before the cap is remembered and restored exactly -- not reset to the
//! maximum, which would undo whatever the administrator had set -- and it is restored when the
//! daemon stops, too.

use crate::text::{join, join_all, joined, texts};
use vstd::prelude::*;

verus! {

/// A frequency policy of the CPU, by its number, with the limit it had before the cap.
#[derive(Clone, Copy, Debug, PartialEq, Eq, Structural)]
pub struct Saved {
    /// Which policy.
    pub policy: usize,
    /// The limit it had.
    pub before_khz: u32,
}

/// What to do next while capping.
#[derive(Clone, Debug, PartialEq, Eq)]
pub enum Next {
    /// Read the limit of this policy, set it to its lowest frequency, and hand what became of it to
    /// `capped`.
    Cap {
        /// Which policy.
        policy: usize,
    },
    /// All are capped.
    Done,
    /// Capping is not possible, or failed: put these limits back, and report why.
    GiveUp {
        /// The limits to put back.
        put_back: Vec<Saved>,
        /// Why.
        why: String,
    },
}

/// The policies that are capped, with the limit each had before.
pub struct CpuCap {
    saved: Vec<Saved>,
}

impl CpuCap {
    /// The policies that are capped, with the limit each had before.
    pub closed spec fn saved(self) -> Seq<Saved> {
        self.saved@
    }

    /// Nothing is capped.
    pub fn new() -> (c: Self)
        ensures
            c.saved().len() == 0,
    {
        CpuCap { saved: Vec::new() }
    }

    /// Starts capping the policies of a machine that has so many. Capping twice changes nothing.
    pub fn cap(&self, policies: usize) -> (n: Next)
        ensures
            if self.saved().len() > 0 {
                n is Done
            } else if policies == 0 {
                n matches Next::GiveUp { put_back, why } && put_back@.len() == 0 && why@
                    == "this machine has no cpufreq policies to cap"@
            } else {
                n == (Next::Cap { policy: 0 })
            },
    {
        if self.saved.len() > 0 {
            return Next::Done;
        }
        if policies == 0 {
            return Next::GiveUp {
                put_back: Vec::new(),
                why: "this machine has no cpufreq policies to cap".to_owned(),
            };
        }
        Next::Cap { policy: 0 }
    }

    /// Takes what became of capping `policy`, the limit it had before or why that failed, of a
    /// machine with so many policies. After a failure, whatever was already capped is put back.
    pub fn capped(
        &mut self,
        policy: usize,
        path: &str,
        outcome: Result<u32, String>,
        policies: usize,
    ) -> (n: Next)
        requires
            policy < policies,
        ensures
            match outcome {
                Ok(before_khz) => final(self).saved() == old(self).saved().push(
                    Saved { policy, before_khz },
                ) && n == if policy + 1 < policies {
                    Next::Cap { policy: (policy + 1) as usize }
                } else {
                    Next::Done
                },
                Err(e) => final(self).saved().len() == 0 && (n matches Next::GiveUp {
                    put_back,
                    why,
                } && put_back@ == old(self).saved() && why@ == "capping "@ + path@ + ": "@ + e@),
            },
    {
        match outcome {
            Ok(before_khz) => {
                self.saved.push(Saved { policy, before_khz });
                if policy + 1 < policies {
                    Next::Cap { policy: policy + 1 }
                } else {
                    Next::Done
                }
            },
            Err(e) => {
                let mut why: String = join("capping ", path);
                why.append(": ");
                why.append(e.as_str());
                Next::GiveUp { put_back: self.lift(), why }
            },
        }
    }

    /// The limits to put back, each exactly as it was; nothing is capped after that.
    pub fn lift(&mut self) -> (v: Vec<Saved>)
        ensures
            v@ == old(self).saved(),
            final(self).saved().len() == 0,
    {
        let mut out: Vec<Saved> = Vec::new();
        let mut i: usize = 0;
        while i < self.saved.len()
            invariant
                i <= self.saved.len(),
                self.saved@ == old(self).saved@,
                out@ == self.saved@.take(i as int),
            decreases self.saved.len() - i,
        {
            out.push(self.saved[i]);
            i = i + 1;
            assert(out@ =~= self.saved@.take(i as int));
        }
        assert(self.saved@.take(i as int) =~= self.saved@);
        self.saved = Vec::new();
        out
    }

    /// Whether anything is capped, and so has to be lifted when the daemon stops.
    pub fn is_capped(&self) -> (r: bool)
        ensures
            r == (self.saved().len() > 0),
    {
        self.saved.len() > 0
    }
}

/// What became of putting the limits back, of the failures there were.
pub fn lifted(failed: &Vec<String>) -> (r: Result<(), String>)
    ensures
        match r {
            Ok(()) => failed@.len() == 0,
            Err(e) => failed@.len() > 0 && e@ == joined(texts(failed@), "; "@),
        },
{
    if failed.len() == 0 {
        Ok(())
    } else {
        Err(join_all(failed, "; "))
    }
}

/// What is logged when a cap is lifted because the daemon stops.
pub fn stop_line(outcome: &Result<(), String>) -> (s: String)
    ensures
        s@ == match *outcome {
            Ok(()) => "argond: cpu: cap lifted on the way out"@,
            Err(e) => "argond: cpu: could not lift the cap on the way out: "@ + e@,
        },
{
    match outcome {
        Ok(()) => "argond: cpu: cap lifted on the way out".to_owned(),
        Err(e) => join("argond: cpu: could not lift the cap on the way out: ", e.as_str()),
    }
}

/// Capping starts with the first policy of a machine that has any, and does nothing where it is
/// capped already.
pub proof fn law_capping_starts_at_the_first_policy(c: &CpuCap, policies: usize, n: Next, r: bool)
    requires
        call_ensures(CpuCap::cap, (c, policies), n),
        call_ensures(CpuCap::is_capped, (c,), r),
    ensures
        r <==> c.saved().len() > 0,
        r ==> n is Done,
        !r && policies > 0 ==> n == (Next::Cap { policy: 0 }),
        !r && policies == 0 ==> n is GiveUp,
{
}

/// Each policy is capped in turn, with the limit it had kept, up to the last; a failure gives up, and
/// every limit that was kept is put back as it was.
pub proof fn law_every_limit_is_put_back_as_it_was(
    policy: usize,
    path: &str,
    before: u32,
    e: String,
    policies: usize,
)
    requires
        policy < policies,
    ensures
        forall|c: &mut CpuCap, n: Next| #[trigger]
            call_ensures(
                CpuCap::capped,
                (c, policy, path, Ok::<u32, String>(before), policies),
                n,
            ) ==> {
                &&& final(c).saved().len() == c.saved().len() + 1
                &&& final(c).saved().last() == (Saved { policy, before_khz: before })
                &&& final(c).saved().drop_last() == c.saved()
                &&& n is Done <==> policy + 1 == policies
                &&& n matches Next::Cap { policy: next } ==> next == policy + 1
                &&& n is Done || n is Cap
            },
        forall|c: &mut CpuCap, n: Next| #[trigger]
            call_ensures(CpuCap::capped, (c, policy, path, Err::<u32, String>(e), policies), n) ==> {
                &&& n matches Next::GiveUp { put_back, .. } && put_back@ == c.saved()
                &&& final(c).saved().len() == 0
            },
        forall|c: &mut CpuCap, v: Vec<Saved>| #[trigger]
            call_ensures(CpuCap::lift, (c,), v) ==> v@ == c.saved() && final(c).saved().len() == 0,
{
    assert forall|c: &mut CpuCap, n: Next| #[trigger]
        call_ensures(CpuCap::capped, (c, policy, path, Ok::<u32, String>(before), policies), n) implies final(
        c).saved().drop_last() == c.saved() by {
        assert(c.saved().push(Saved { policy, before_khz: before }).drop_last() =~= c.saved());
    }
}

/// The limits are back exactly where nothing failed.
pub proof fn law_lifted_where_nothing_failed(failed: &Vec<String>, r: Result<(), String>)
    requires
        call_ensures(lifted, (failed,), r),
    ensures
        r is Ok <==> failed@.len() == 0,
{
}

} // verus!

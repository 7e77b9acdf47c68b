use vstd::prelude::*;
use crate::horn_requests::PrebuiltHornRequests;

verus! {

// The demonstration loop is a fixed script of remote calls and waits. The
// decisions of the loop live here as pure functions: which steps stand in
// the script, and how far the script runs when a call fails. The process
// boundary performs the calls and the sleeps.
/// One step of the demonstration script: issue an activation with a canned
/// pattern, wait for a number of milliseconds, or issue a deactivation.
#[derive(Clone, Copy, PartialEq, Eq, Structural, Debug)]
pub enum HornCommand {
    Activate(PrebuiltHornRequests),
    Wait(u64),
    Deactivate,
}

/// Whether a step issues a remote call (waits do not).
pub open spec fn is_call(c: HornCommand) -> bool {
    !(c is Wait)
}

/// How many steps of a script issue remote calls.
pub open spec fn spec_call_count(s: Seq<HornCommand>) -> nat
    decreases s.len(),
{
    if s.len() == 0 {
        0
    } else {
        (if is_call(s[0]) {
            1nat
        } else {
            0nat
        }) + spec_call_count(s.drop_first())
    }
}

/// The scripted demonstration: activate with the sequenced pattern, wait
/// 1500 ms, deactivate, activate with the continuous pattern, wait 4000 ms,
/// deactivate.
pub fn example_horn_script() -> (s: Vec<HornCommand>)
    ensures
        s@ =~= seq![
            HornCommand::Activate(PrebuiltHornRequests::Sequenced),
            HornCommand::Wait(1500),
            HornCommand::Deactivate,
            HornCommand::Activate(PrebuiltHornRequests::Continuous),
            HornCommand::Wait(4000),
            HornCommand::Deactivate,
        ],
{
    let mut s: Vec<HornCommand> = Vec::new();
    s.push(HornCommand::Activate(PrebuiltHornRequests::Sequenced));
    s.push(HornCommand::Wait(1500));
    s.push(HornCommand::Deactivate);
    s.push(HornCommand::Activate(PrebuiltHornRequests::Continuous));
    s.push(HornCommand::Wait(4000));
    s.push(HornCommand::Deactivate);
    s
}

/// What running a script performs, given the result of each remote call in
/// order: steps run in listed order, waits always succeed, and the first
/// failed call is performed but aborts everything after it. Yields the
/// performed steps and whether the script ran to completion.
pub open spec fn spec_trace(s: Seq<HornCommand>, oks: Seq<bool>) -> (Seq<HornCommand>, bool)
    decreases s.len(),
{
    if s.len() == 0 {
        (Seq::empty(), true)
    } else if !is_call(s[0]) {
        let t = spec_trace(s.drop_first(), oks);
        (seq![s[0]] + t.0, t.1)
    } else if oks.len() > 0 && oks[0] {
        let t = spec_trace(s.drop_first(), oks.drop_first());
        (seq![s[0]] + t.0, t.1)
    } else {
        (seq![s[0]], false)
    }
}

/// The steps a script run performs and whether it completed.
#[derive(PartialEq, Eq, Debug)]
pub struct ScriptTrace {
    pub performed: Vec<HornCommand>,
    pub completed: bool,
}

/// Runs a script against the given per-call results, purely: the process
/// boundary (or a test) supplies what each remote call would report, and
/// the trace says which steps run and whether the script survives them.
pub fn trace_script(script: &Vec<HornCommand>, rpc_ok: &Vec<bool>) -> (t: ScriptTrace)
    requires
        spec_call_count(script@) <= rpc_ok@.len(),
    ensures
        (t.performed@, t.completed) == spec_trace(script@, rpc_ok@),
{
    let mut performed: Vec<HornCommand> = Vec::new();
    let mut i: usize = 0;
    let mut j: usize = 0;
    proof {
        assert(script@.skip(0) =~= script@);
        assert(rpc_ok@.skip(0) =~= rpc_ok@);
        assert(performed@ + spec_trace(script@, rpc_ok@).0 =~= spec_trace(script@, rpc_ok@).0);
    }
    while i < script.len()
        invariant
            i <= script@.len(),
            j <= rpc_ok@.len(),
            spec_call_count(script@.skip(i as int)) <= rpc_ok@.len() - j,
            spec_trace(script@, rpc_ok@) == {
                let t = spec_trace(script@.skip(i as int), rpc_ok@.skip(j as int));
                (performed@ + t.0, t.1)
            },
        decreases script@.len() - i,
    {
        let cmd = script[i];
        proof {
            assert(script@.skip(i as int)[0] == script@[i as int]);
            assert(script@.skip(i as int).drop_first() =~= script@.skip(i as int + 1));
        }
        match cmd {
            HornCommand::Wait(_) => {
                performed.push(cmd);
                proof {
                    let t = spec_trace(script@.skip(i as int + 1), rpc_ok@.skip(j as int));
                    assert(performed@ + t.0 =~= performed@.drop_last() + (seq![cmd] + t.0));
                }
                i = i + 1;
            },
            _ => {
                proof {
                    assert(spec_call_count(script@.skip(i as int)) >= 1);
                    assert(j < rpc_ok@.len());
                }
                let ok = rpc_ok[j];
                performed.push(cmd);
                proof {
                    assert(rpc_ok@.skip(j as int)[0] == rpc_ok@[j as int]);
                    assert(rpc_ok@.skip(j as int).drop_first() =~= rpc_ok@.skip(j as int + 1));
                }
                if ok {
                    proof {
                        assert(j < rpc_ok.len());
                        let t = spec_trace(script@.skip(i as int + 1), rpc_ok@.skip(j as int + 1));
                        assert(performed@ + t.0 =~= performed@.drop_last() + (seq![cmd] + t.0));
                    }
                    i = i + 1;
                    j = j + 1;
                } else {
                    proof {
                        assert(performed@ =~= performed@.drop_last() + seq![cmd]);
                    }
                    return ScriptTrace { performed, completed: false };
                }
            },
        }
    }
    proof {
        assert(spec_trace(script@.skip(script@.len() as int), rpc_ok@.skip(j as int)).0 =~= Seq::<
            HornCommand,
        >::empty());
        assert(performed@ + Seq::<HornCommand>::empty() =~= performed@);
    }
    ScriptTrace { performed, completed: true }
}

} // verus!

//! The pass executor's decisions.
//!
//! An effect runs its passes in order against a pair of colour buffers. Each
//! pass that runs reads the buffer that holds the image and draws one
//! full-screen triangle into the other one, which then holds the image. A
//! pass that is skipped draws nothing and leaves the image where it is. A
//! frame is drawn whole or not at all: when a pipeline that would run, or a
//! uniform binding, is not available yet, no pass runs in that frame.
//!
//! `plan_frame` decides all of this from plain values. The renderer looks the
//! resources up beforehand and performs the draws afterwards.

use vstd::prelude::*;

verus! {

/// Vertices of the one draw of each pass: a triangle that covers the screen,
/// made from the vertex index alone.
pub const VERTICES_PER_PASS: u32 = 3;

/// Instances of the one draw of each pass.
pub const INSTANCES_PER_PASS: u32 = 1;

/// One of the two colour buffers of a view.
#[derive(Clone, Copy, PartialEq, Eq, Debug, Structural)]
pub enum Buffer {
    First,
    Second,
}

impl Buffer {
    /// The buffer that this one is paired with.
    pub open spec fn other(self) -> Buffer {
        match self {
            Buffer::First => Buffer::Second,
            Buffer::Second => Buffer::First,
        }
    }

    /// The buffer that this one is paired with.
    pub fn flipped(self) -> (r: Buffer)
        ensures
            r == self.other(),
    {
        match self {
            Buffer::First => Buffer::Second,
            Buffer::Second => Buffer::First,
        }
    }
}

/// One pass that runs: which one, what it reads and what it draws into.
#[derive(Clone, Copy, PartialEq, Eq, Debug, Structural)]
pub struct Draw {
    pub pass: usize,
    pub source: Buffer,
    pub destination: Buffer,
}

/// Why a frame is left as it is.
#[derive(Clone, Copy, PartialEq, Eq, Debug, Structural)]
pub enum NotReady {
    /// The pipeline of this pass is not compiled yet.
    Pipeline(usize),
    /// The uniform binding of the settings snapshot is not available.
    SettingsBinding,
    /// The uniform binding of the engine's globals is not available.
    GlobalsBinding,
}

/// What the renderer found when it looked the frame's resources up.
#[derive(PartialEq, Eq, Debug)]
pub struct FrameResources {
    /// For each pass, whether its pipeline is compiled. A pass beyond the
    /// end counts as not compiled.
    pub pipelines: Vec<bool>,
    pub settings_binding: bool,
    pub globals_binding: bool,
}

/// The pipeline of `pass` is compiled.
pub open spec fn ready_at(pipelines: Seq<bool>, pass: int) -> bool {
    0 <= pass < pipelines.len() && pipelines[pass]
}

/// Every pass that is not skipped has its pipeline.
pub open spec fn all_ready(skip: Seq<bool>, pipelines: Seq<bool>) -> bool {
    forall|pass: int| 0 <= pass < skip.len() ==> skip[pass] || ready_at(pipelines, pass)
}

/// `pass` is the first pass that is not skipped and lacks its pipeline.
pub open spec fn first_unready(skip: Seq<bool>, pipelines: Seq<bool>, pass: int) -> bool {
    &&& 0 <= pass < skip.len()
    &&& !skip[pass]
    &&& !ready_at(pipelines, pass)
    &&& forall|earlier: int| 0 <= earlier < pass ==> skip[earlier] || ready_at(pipelines, earlier)
}

/// The passes that run, in order: the indices that `skip` does not mark.
pub open spec fn executed(skip: Seq<bool>) -> Seq<usize>
    decreases skip.len(),
{
    if skip.len() == 0 {
        Seq::empty()
    } else if skip.last() {
        executed(skip.drop_last())
    } else {
        executed(skip.drop_last()).push((skip.len() - 1) as usize)
    }
}

/// The buffer that holds the image after `steps` draws, when `source` held
/// it before the first.
pub open spec fn holder(steps: int, source: Buffer) -> Buffer {
    if steps % 2 == 0 {
        source
    } else {
        source.other()
    }
}

/// The draws of `passes`, the first of which reads `source`.
pub open spec fn chain(passes: Seq<usize>, source: Buffer) -> Seq<Draw> {
    Seq::new(
        passes.len(),
        |step: int|
            Draw {
                pass: passes[step],
                source: holder(step, source),
                destination: holder(step + 1, source),
            },
    )
}

/// `r` is the plan of a frame: the pipelines of the passes that would run
/// are asked for first, in order, then the settings binding, then the
/// globals binding. The first that is missing is reported and nothing is
/// drawn. With nothing missing, `r` lists the draws of the passes that run,
/// the first of which reads `source`.
pub open spec fn planned(
    skip: Seq<bool>,
    resources: &FrameResources,
    source: Buffer,
    r: Result<Vec<Draw>, NotReady>,
) -> bool {
    match r {
        Ok(draws) => {
            &&& all_ready(skip, resources.pipelines@)
            &&& resources.settings_binding
            &&& resources.globals_binding
            &&& draws@ == chain(executed(skip), source)
        },
        Err(NotReady::Pipeline(pass)) => first_unready(skip, resources.pipelines@, pass as int),
        Err(NotReady::SettingsBinding) => {
            &&& all_ready(skip, resources.pipelines@)
            &&& !resources.settings_binding
        },
        Err(NotReady::GlobalsBinding) => {
            &&& all_ready(skip, resources.pipelines@)
            &&& resources.settings_binding
            &&& !resources.globals_binding
        },
    }
}

/// `r` is the plan of a frame of an effect with one pass, which is never
/// skipped: one draw from `source` into the other buffer, or the first
/// thing that is missing.
pub open spec fn planned_single(
    resources: &FrameResources,
    source: Buffer,
    r: Result<Vec<Draw>, NotReady>,
) -> bool {
    match r {
        Ok(draws) => {
            &&& ready_at(resources.pipelines@, 0)
            &&& resources.settings_binding
            &&& resources.globals_binding
            &&& draws@ == seq![Draw { pass: 0, source, destination: source.other() }]
        },
        Err(NotReady::Pipeline(pass)) => pass == 0 && !ready_at(resources.pipelines@, 0),
        Err(NotReady::SettingsBinding) => {
            &&& ready_at(resources.pipelines@, 0)
            &&& !resources.settings_binding
        },
        Err(NotReady::GlobalsBinding) => {
            &&& ready_at(resources.pipelines@, 0)
            &&& resources.settings_binding
            &&& !resources.globals_binding
        },
    }
}

/// Plans one frame of one effect on one view.
///
/// `skip` marks the passes that the settings switch off, `resources` says
/// what is available, and `source` is the buffer that holds the image.
pub fn plan_frame(skip: &Vec<bool>, resources: &FrameResources, source: Buffer) -> (r: Result<
    Vec<Draw>,
    NotReady,
>)
    ensures
        planned(skip@, resources, source, r),
        r is Ok <==> all_ready(skip@, resources.pipelines@) && resources.settings_binding
            && resources.globals_binding,
{
    let passes: usize = skip.len();
    let mut pass: usize = 0;
    while pass < passes
        invariant
            passes == skip@.len(),
            pass <= passes,
            forall|earlier: int|
                0 <= earlier < pass ==> skip@[earlier] || ready_at(resources.pipelines@, earlier),
        decreases passes - pass,
    {
        if !skip[pass] && !(pass < resources.pipelines.len() && resources.pipelines[pass]) {
            return Err(NotReady::Pipeline(pass));
        }
        pass += 1;
    }
    if !resources.settings_binding {
        return Err(NotReady::SettingsBinding);
    }
    if !resources.globals_binding {
        return Err(NotReady::GlobalsBinding);
    }
    let mut draws: Vec<Draw> = Vec::new();
    let mut holds = source;
    pass = 0;
    while pass < passes
        invariant
            passes == skip@.len(),
            pass <= passes,
            holds == holder(draws@.len() as int, source),
            draws@ == chain(executed(skip@.take(pass as int)), source),
        decreases passes - pass,
    {
        proof {
            let before = skip@.take(pass as int);
            let after = skip@.take(pass + 1);
            assert(after.drop_last() == before);
            assert(after.last() == skip@[pass as int]);
        }
        if !skip[pass] {
            let into = holds.flipped();
            draws.push(Draw { pass, source: holds, destination: into });
            holds = into;
        }
        pass += 1;
    }
    proof {
        assert(skip@.take(passes as int) == skip@);
    }
    Ok(draws)
}

/// Plans one frame of an effect with one pass, which is never skipped.
pub fn plan_single_pass(resources: &FrameResources, source: Buffer) -> (r: Result<
    Vec<Draw>,
    NotReady,
>)
    ensures
        planned_single(resources, source, r),
        r is Ok <==> ready_at(resources.pipelines@, 0) && resources.settings_binding
            && resources.globals_binding,
{
    let mut skip: Vec<bool> = Vec::new();
    skip.push(false);
    let r = plan_frame(&skip, resources, source);
    proof {
        let mask = skip@;
        assert(mask.len() == 1 && !mask[0]);
        assert(executed(mask.drop_last()) =~= Seq::<usize>::empty());
        assert(executed(mask) =~= seq![0usize]);
        if r is Ok {
            assert(r->Ok_0@ =~= seq![Draw { pass: 0, source, destination: source.other() }]);
        }
    }
    r
}

/// The passes that run are exactly those not skipped, each once, in
/// ascending order. (A mask is as long as a `Vec`, so its indices fit.)
pub proof fn lemma_executed(skip: Seq<bool>)
    requires
        skip.len() <= usize::MAX,
    ensures
        executed(skip).len() <= skip.len(),
        forall|k: int| 0 <= k < executed(skip).len() ==> #[trigger] executed(skip)[k] < skip.len(),
        forall|k: int|
            0 <= k < executed(skip).len() ==> !skip[(#[trigger] executed(skip)[k]) as int],
        forall|j: int, k: int|
            0 <= j < k < executed(skip).len() ==> executed(skip)[j] < executed(skip)[k],
        forall|pass: int|
            0 <= pass < skip.len() && !skip[pass] ==> #[trigger] executed(skip).contains(
                pass as usize,
            ),
    decreases skip.len(),
{
    if skip.len() > 0 {
        let front = skip.drop_last();
        lemma_executed(front);
        let last = (skip.len() - 1) as usize;
        if skip.last() {
            assert forall|pass: int| 0 <= pass < skip.len() && !skip[pass] implies executed(
                skip,
            ).contains(pass as usize) by {
                assert(front[pass] == skip[pass]);
                assert(executed(front).contains(pass as usize));
            }
        } else {
            let run = executed(skip);
            assert(run == executed(front).push(last));
            assert forall|pass: int| 0 <= pass < skip.len() && !skip[pass] implies run.contains(
                pass as usize,
            ) by {
                if pass == last {
                    assert(run[run.len() - 1] == last);
                } else {
                    assert(front[pass] == skip[pass]);
                    assert(executed(front).contains(pass as usize));
                    let k = choose|k: int|
                        0 <= k < executed(front).len() && executed(front)[k] == pass as usize;
                    assert(run[k] == pass as usize);
                }
            }
        }
    }
}

/// Each draw reads what the one before it drew into, the first reads the
/// incoming image, and no draw reads the buffer that it draws into.
pub proof fn lemma_chain_links(passes: Seq<usize>, source: Buffer)
    ensures
        chain(passes, source).len() == passes.len(),
        passes.len() > 0 ==> chain(passes, source)[0].source == source,
        forall|step: int|
            0 < step < passes.len() ==> (#[trigger] chain(passes, source)[step]).source == chain(
                passes,
                source,
            )[step - 1].destination,
        forall|step: int|
            0 <= step < passes.len() ==> (#[trigger] chain(passes, source)[step]).destination
                == chain(passes, source)[step].source.other(),
        forall|step: int|
            0 <= step < passes.len() ==> (#[trigger] chain(passes, source)[step]).pass
                == passes[step],
{
}

} // verus!

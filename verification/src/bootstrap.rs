//! The surface/context bootstrap protocol: picking a GPU configuration that
//! supports transparency, checking the window's measured size, and the
//! strict step order of the one-shot startup sequence, where every failure
//! is fatal.

use vstd::prelude::*;

verus! {

/// What the bootstrap reads of one candidate GPU configuration: whether the
/// window system reports transparency support for it, if it reports
/// anything at all.
#[derive(Clone, Copy, Debug, PartialEq, Eq, Structural)]
pub struct ConfigCandidate {
    pub supports_transparency: Option<bool>,
}

/// A candidate is usable only when the window system positively reports
/// transparency support; an absent report counts as unsupported.
pub open spec fn is_transparent(c: ConfigCandidate) -> bool {
    c.supports_transparency == Some(true)
}

/// Why the one-shot startup cannot go on; every variant is fatal.
#[derive(Clone, Copy, Debug, PartialEq, Eq, Structural)]
pub enum BootstrapError {
    NoTransparentConfig,
    ZeroWidth,
    ZeroHeight,
}

/// Selects the first candidate configuration that supports transparency,
/// or reports that none does.
pub fn pick_transparent_config(configs: &Vec<ConfigCandidate>) -> (r: Result<
    usize,
    BootstrapError,
>)
    ensures
        match r {
            Ok(i) => i < configs@.len() && is_transparent(configs@[i as int])
                && forall|j: int| 0 <= j < i ==> !is_transparent(configs@[j]),
            Err(e) => e == BootstrapError::NoTransparentConfig
                && forall|j: int| 0 <= j < configs@.len() ==> !is_transparent(configs@[j]),
        },
{
    let mut i: usize = 0;
    while i < configs.len()
        invariant
            i <= configs@.len(),
            forall|j: int| 0 <= j < i ==> !is_transparent(configs@[j]),
        decreases configs@.len() - i,
    {
        match configs[i].supports_transparency {
            Some(true) => {
                return Ok(i);
            },
            _ => {},
        }
        i = i + 1;
    }
    Err(BootstrapError::NoTransparentConfig)
}

/// Checks the window's measured pixel size before the surface is built:
/// both dimensions must be non-zero, the width being tested first.
pub fn validate_surface_size(width: u32, height: u32) -> (r: Result<
    (u32, u32),
    BootstrapError,
>)
    ensures
        width == 0 ==> r == Err::<(u32, u32), BootstrapError>(BootstrapError::ZeroWidth),
        width > 0 && height == 0 ==> r == Err::<(u32, u32), BootstrapError>(
            BootstrapError::ZeroHeight,
        ),
        width > 0 && height > 0 ==> r == Ok::<(u32, u32), BootstrapError>((width, height)),
{
    if width == 0 {
        Err(BootstrapError::ZeroWidth)
    } else if height == 0 {
        Err(BootstrapError::ZeroHeight)
    } else {
        Ok((width, height))
    }
}

/// Where the one-shot startup stands. The order is load-bearing: each
/// phase's work needs the previous phase's output, and a failure anywhere
/// is terminal.
#[derive(Clone, Copy, Debug, PartialEq, Eq, Structural)]
pub enum BootstrapPhase {
    NegotiatingConfig,
    MeasuringWindow,
    CreatingSurface,
    CreatingContext,
    MakingCurrent,
    WrappingDisplay,
    Ready,
    Failed,
}

/// The phase that follows each working phase; the two terminal phases
/// stay where they are.
pub open spec fn next_phase(p: BootstrapPhase) -> BootstrapPhase {
    match p {
        BootstrapPhase::NegotiatingConfig => BootstrapPhase::MeasuringWindow,
        BootstrapPhase::MeasuringWindow => BootstrapPhase::CreatingSurface,
        BootstrapPhase::CreatingSurface => BootstrapPhase::CreatingContext,
        BootstrapPhase::CreatingContext => BootstrapPhase::MakingCurrent,
        BootstrapPhase::MakingCurrent => BootstrapPhase::WrappingDisplay,
        BootstrapPhase::WrappingDisplay => BootstrapPhase::Ready,
        BootstrapPhase::Ready => BootstrapPhase::Ready,
        BootstrapPhase::Failed => BootstrapPhase::Failed,
    }
}

pub open spec fn is_terminal(p: BootstrapPhase) -> bool {
    p == BootstrapPhase::Ready || p == BootstrapPhase::Failed
}

/// Moves the startup one step on: a successful step enters the next phase,
/// a failed step is fatal, and a terminal phase never moves again.
pub fn advance_bootstrap(phase: BootstrapPhase, step_ok: bool) -> (r: BootstrapPhase)
    ensures
        is_terminal(phase) ==> r == phase,
        !is_terminal(phase) && step_ok ==> r == next_phase(phase),
        !is_terminal(phase) && !step_ok ==> r == BootstrapPhase::Failed,
{
    match phase {
        BootstrapPhase::Ready => BootstrapPhase::Ready,
        BootstrapPhase::Failed => BootstrapPhase::Failed,
        _ => if step_ok {
            match phase {
                BootstrapPhase::NegotiatingConfig => BootstrapPhase::MeasuringWindow,
                BootstrapPhase::MeasuringWindow => BootstrapPhase::CreatingSurface,
                BootstrapPhase::CreatingSurface => BootstrapPhase::CreatingContext,
                BootstrapPhase::CreatingContext => BootstrapPhase::MakingCurrent,
                BootstrapPhase::MakingCurrent => BootstrapPhase::WrappingDisplay,
                _ => BootstrapPhase::Ready,
            }
        } else {
            BootstrapPhase::Failed
        },
    }
}

/// Runs the whole six-step sequence on the outcome of each step: the
/// startup is ready exactly when every step succeeded, and failed
/// otherwise — there is no partial success.
pub fn bootstrap_outcome(
    config_ok: bool,
    size_ok: bool,
    surface_ok: bool,
    context_ok: bool,
    current_ok: bool,
    wrap_ok: bool,
) -> (r: BootstrapPhase)
    ensures
        r == BootstrapPhase::Ready <==> config_ok && size_ok && surface_ok && context_ok
            && current_ok && wrap_ok,
        r == BootstrapPhase::Ready || r == BootstrapPhase::Failed,
{
    let mut phase = BootstrapPhase::NegotiatingConfig;
    phase = advance_bootstrap(phase, config_ok);
    phase = advance_bootstrap(phase, size_ok);
    phase = advance_bootstrap(phase, surface_ok);
    phase = advance_bootstrap(phase, context_ok);
    phase = advance_bootstrap(phase, current_ok);
    phase = advance_bootstrap(phase, wrap_ok);
    phase
}

} // verus!

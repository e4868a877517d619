use overlay_core::bootstrap::advance_bootstrap;
use overlay_core::bootstrap::bootstrap_outcome;
use overlay_core::bootstrap::pick_transparent_config;
use overlay_core::bootstrap::validate_surface_size;
use overlay_core::bootstrap::BootstrapError;
use overlay_core::bootstrap::BootstrapPhase;
use overlay_core::bootstrap::ConfigCandidate;

fn candidate(report: Option<bool>) -> ConfigCandidate {
    ConfigCandidate { supports_transparency: report }
}

#[test]
fn picks_the_first_transparent_config() {
    let configs = vec![
        candidate(None),
        candidate(Some(false)),
        candidate(Some(true)),
        candidate(Some(true)),
    ];
    assert_eq!(pick_transparent_config(&configs), Ok(2));
}

#[test]
fn no_transparent_config_is_fatal() {
    let configs = vec![candidate(None), candidate(Some(false))];
    assert_eq!(
        pick_transparent_config(&configs),
        Err(BootstrapError::NoTransparentConfig)
    );
}

#[test]
fn empty_config_list_is_fatal() {
    assert_eq!(
        pick_transparent_config(&Vec::new()),
        Err(BootstrapError::NoTransparentConfig)
    );
}

#[test]
fn an_absent_transparency_report_counts_as_unsupported() {
    let configs = vec![candidate(None), candidate(Some(true))];
    assert_eq!(pick_transparent_config(&configs), Ok(1));
}

#[test]
fn zero_width_is_rejected_first() {
    assert_eq!(validate_surface_size(0, 600), Err(BootstrapError::ZeroWidth));
    assert_eq!(validate_surface_size(0, 0), Err(BootstrapError::ZeroWidth));
}

#[test]
fn zero_height_is_rejected() {
    assert_eq!(validate_surface_size(800, 0), Err(BootstrapError::ZeroHeight));
}

#[test]
fn non_zero_size_passes_through() {
    assert_eq!(validate_surface_size(800, 600), Ok((800, 600)));
}

#[test]
fn all_steps_succeeding_reach_ready() {
    let phase = bootstrap_outcome(true, true, true, true, true, true);
    assert_eq!(phase, BootstrapPhase::Ready);
}

#[test]
fn any_failing_step_is_fatal() {
    assert_eq!(
        bootstrap_outcome(false, true, true, true, true, true),
        BootstrapPhase::Failed
    );
    assert_eq!(
        bootstrap_outcome(true, true, true, false, true, true),
        BootstrapPhase::Failed
    );
    assert_eq!(
        bootstrap_outcome(true, true, true, true, true, false),
        BootstrapPhase::Failed
    );
}

#[test]
fn steps_run_in_their_load_bearing_order() {
    let mut phase = BootstrapPhase::NegotiatingConfig;
    phase = advance_bootstrap(phase, true);
    assert_eq!(phase, BootstrapPhase::MeasuringWindow);
    phase = advance_bootstrap(phase, true);
    assert_eq!(phase, BootstrapPhase::CreatingSurface);
    phase = advance_bootstrap(phase, true);
    assert_eq!(phase, BootstrapPhase::CreatingContext);
    phase = advance_bootstrap(phase, true);
    assert_eq!(phase, BootstrapPhase::MakingCurrent);
    phase = advance_bootstrap(phase, true);
    assert_eq!(phase, BootstrapPhase::WrappingDisplay);
    phase = advance_bootstrap(phase, true);
    assert_eq!(phase, BootstrapPhase::Ready);
}

#[test]
fn a_failed_bootstrap_stays_failed() {
    let phase = advance_bootstrap(BootstrapPhase::CreatingSurface, false);
    assert_eq!(phase, BootstrapPhase::Failed);
    assert_eq!(advance_bootstrap(phase, true), BootstrapPhase::Failed);
}

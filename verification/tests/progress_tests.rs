use torsim::progress::{ProgressAction, ProgressReporter};

#[test]
fn population_2000_reports_every_2_completions() {
    let mut p = ProgressReporter::new(2000);
    assert_eq!(p.print_every, 2);

    // Never a report at zero completions: the first signal only counts.
    assert_eq!(p.on_signal(true), ProgressAction::Continue);
    assert_eq!(p.on_signal(true), ProgressAction::Report { completed: 2 });
    assert_eq!(p.on_signal(true), ProgressAction::Continue);
    assert_eq!(p.on_signal(true), ProgressAction::Report { completed: 4 });
}

#[test]
fn small_population_reports_every_completion() {
    let mut p = ProgressReporter::new(5);
    assert_eq!(p.print_every, 1);
    assert_eq!(p.on_signal(true), ProgressAction::Report { completed: 1 });
    assert_eq!(p.on_signal(true), ProgressAction::Report { completed: 2 });
}

#[test]
fn stop_sentinel_ends_reporting() {
    let mut p = ProgressReporter::new(2000);
    assert_eq!(p.on_signal(true), ProgressAction::Continue);
    assert_eq!(p.on_signal(false), ProgressAction::Stop);
    assert_eq!(p.seen, 1);
}

#[test]
fn population_boundary_keeps_cadence_at_least_one() {
    assert_eq!(ProgressReporter::new(0).print_every, 1);
    assert_eq!(ProgressReporter::new(999).print_every, 1);
    assert_eq!(ProgressReporter::new(1000).print_every, 1);
    assert_eq!(ProgressReporter::new(1999).print_every, 1);
    assert_eq!(ProgressReporter::new(3000).print_every, 3);
}

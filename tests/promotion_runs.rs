use up1::precondition::InvariantViolation;
use up1::promotion::{Category, Failure, Phase, Promotion};

fn names(v: &[&str]) -> Vec<String> {
    v.iter().map(|s| s.to_string()).collect()
}

fn started(dry_run: bool) -> Promotion {
    Promotion::new("bar".to_string(), "foo".to_string(), dry_run)
}

#[test]
fn full_promotion_takes_three_steps() {
    let mut p = started(false);
    assert_eq!(p.phase(), Phase::ListParent);
    p.on_listing(&names(&["bar"]));
    assert_eq!(p.phase(), Phase::ListGrandparent);
    p.on_listing(&names(&["foo", "_foo", "other"]));
    assert_eq!(p.phase(), Phase::MoveChildToTemp);
    assert_eq!(p.temp(), "__foo");
    p.on_outcome(true);
    assert_eq!(p.phase(), Phase::RemoveParent);
    p.on_outcome(true);
    assert_eq!(p.phase(), Phase::MoveTempToParent);
    assert!(!p.is_finished());
    p.on_outcome(true);
    assert_eq!(p.phase(), Phase::Promoted);
    assert!(p.is_finished());
}

#[test]
fn extra_entries_abort_before_any_change() {
    for dry_run in [false, true] {
        let mut p = started(dry_run);
        p.on_listing(&names(&["bar", "readme"]));
        assert_eq!(p.phase(), Phase::Failed(Failure::ExtraEntries));
        assert!(p.is_finished());
        p.on_outcome(true);
        p.on_listing(&names(&["foo"]));
        assert_eq!(p.phase(), Phase::Failed(Failure::ExtraEntries));
        assert_eq!(p.temp(), "");
    }
}

#[test]
fn empty_parent_aborts_as_invariant_violation() {
    let mut p = started(false);
    p.on_listing(&names(&[]));
    let f = Failure::Invariant(InvariantViolation::EmptyParent);
    assert_eq!(p.phase(), Phase::Failed(f));
    assert_eq!(f.category(), Category::Invariant);
    assert_eq!(Failure::ExtraEntries.category(), Category::Precondition);
}

#[test]
fn mismatched_entry_aborts_as_invariant_violation() {
    let mut p = started(false);
    p.on_listing(&names(&["baz"]));
    assert_eq!(p.phase(), Phase::Failed(Failure::Invariant(InvariantViolation::ChildMismatch)));
}

#[test]
fn dry_run_stops_after_the_check() {
    let mut p = started(true);
    assert!(p.is_dry_run());
    p.on_listing(&names(&["bar"]));
    assert_eq!(p.phase(), Phase::DryRun);
    assert!(p.is_finished());
    p.on_listing(&names(&["foo"]));
    p.on_outcome(true);
    assert_eq!(p.phase(), Phase::DryRun);
    assert_eq!(p.child(), "bar");
    assert_eq!(p.parent(), "foo");
}

#[test]
fn unlisted_directories_are_resolution_failures() {
    let mut p = started(false);
    p.on_outcome(false);
    assert_eq!(p.phase(), Phase::Failed(Failure::ParentUnlisted));
    let mut p = started(false);
    p.on_listing(&names(&["bar"]));
    p.on_outcome(false);
    assert_eq!(p.phase(), Phase::Failed(Failure::GrandparentUnlisted));
    assert_eq!(Failure::GrandparentUnlisted.category(), Category::Resolution);
}

#[test]
fn parent_without_base_name_fails() {
    let mut p = Promotion::new("bar".to_string(), String::new(), false);
    p.on_listing(&names(&["bar"]));
    p.on_listing(&names(&["x"]));
    assert_eq!(p.phase(), Phase::Failed(Failure::NoBaseName));
}

#[test]
fn failed_move_to_temp_stops_everything() {
    let mut p = started(false);
    p.on_listing(&names(&["bar"]));
    p.on_listing(&names(&["foo"]));
    p.on_outcome(false);
    assert_eq!(p.phase(), Phase::Failed(Failure::MoveToTemp));
    p.on_outcome(true);
    assert_eq!(p.phase(), Phase::Failed(Failure::MoveToTemp));
    assert_eq!(Failure::MoveToTemp.category(), Category::Operation);
}

#[test]
fn failed_remove_keeps_both_names() {
    let mut p = started(false);
    p.on_listing(&names(&["bar"]));
    p.on_listing(&names(&["foo", "_foo", "__foo"]));
    p.on_outcome(true);
    p.on_outcome(false);
    assert_eq!(p.phase(), Phase::Failed(Failure::RemoveParent));
    assert_eq!(p.child(), "bar");
    assert_eq!(p.temp(), "___foo");
    p.on_outcome(true);
    assert_eq!(p.phase(), Phase::Failed(Failure::RemoveParent));
}

#[test]
fn failed_final_rename_is_reported() {
    let mut p = started(false);
    p.on_listing(&names(&["bar"]));
    p.on_listing(&names(&["foo"]));
    p.on_outcome(true);
    p.on_outcome(true);
    p.on_outcome(false);
    assert_eq!(p.phase(), Phase::Failed(Failure::MoveToParent));
    assert_eq!(p.temp(), "_foo");
}

#[test]
fn second_promotion_of_a_fuller_directory_aborts() {
    let mut p = Promotion::new("src".to_string(), "foo".to_string(), false);
    p.on_listing(&names(&["src", "Cargo.toml", "README"]));
    assert_eq!(p.phase(), Phase::Failed(Failure::ExtraEntries));
    let mut p = Promotion::new("inner".to_string(), "foo".to_string(), false);
    p.on_listing(&names(&["inner"]));
    assert_eq!(p.phase(), Phase::ListGrandparent);
}

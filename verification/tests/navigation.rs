use term_navigator::{
    finalize_output, get_path_options, resolve, resolve_confirmed, strip_index_prefix,
    usize_to_string, AbsPath, DirChild, Entry, NavigationAction, OptionList, Resolution, Session,
    SessionOutcome,
};

fn child(name: &str, is_dir: bool) -> DirChild {
    DirChild { name: name.to_string(), is_dir }
}

fn path(parts: &[&str]) -> AbsPath {
    AbsPath::from_parts(parts.iter().map(|p| p.to_string()).collect())
}

fn sample_children() -> Vec<DirChild> {
    vec![
        child("src", true),
        child("notes.txt", false),
        child(".git", true),
        child("target", true),
        child(".cache", true),
    ]
}

#[test]
fn hidden_children_are_excluded_by_default() {
    let options = get_path_options(&sample_children(), true, false);
    assert_eq!(options, vec![".", "..", "src", "target"]);
}

#[test]
fn hidden_children_are_included_on_request() {
    let options = get_path_options(&sample_children(), true, true);
    assert_eq!(options, vec![".", "..", "src", ".git", "target", ".cache"]);
}

#[test]
fn files_are_never_listed() {
    let options = get_path_options(&vec![child("plain.txt", false)], true, true);
    assert_eq!(options, vec![".", ".."]);
}

#[test]
fn fixed_positions_and_index_prefixes() {
    let options = get_path_options(&sample_children(), false, false);
    assert_eq!(options, vec!["[0] .", "[1] ..", "[2] src", "[3] target"]);
    for (i, label) in options.iter().enumerate() {
        assert!(label.starts_with(&format!("[{}] ", i)));
    }
    let plain = get_path_options(&sample_children(), true, false);
    assert_eq!(plain[0], ".");
    assert_eq!(plain[1], "..");
}

#[test]
fn built_entries_start_with_self_and_parent() {
    let list = OptionList::build(&sample_children(), false);
    assert_eq!(list.entries[0], Entry::SelfEntry);
    assert_eq!(list.entries[1], Entry::ParentEntry);
    assert_eq!(list.entries[2], Entry::ChildEntry { name: "src".to_string() });
    assert_eq!(list.entries.len(), 4);
}

#[test]
fn choosing_parent_always_ascends() {
    let session = Session::new(path(&["home", "u"]));
    let options = vec![".".to_string(), "..".to_string()];
    let r = resolve(&session, &options, Some(1), false);
    assert_eq!(r, Resolution::Act(NavigationAction::Ascend));
}

#[test]
fn ascending_at_root_stays_at_root() {
    let mut session = Session::new(AbsPath::root());
    let outcome = session.apply(&NavigationAction::Ascend);
    assert_eq!(outcome, SessionOutcome::Continue);
    assert_eq!(session.current.render(), "/");
}

#[test]
fn choosing_self_at_origin_is_a_no_op() {
    let session = Session::new(path(&["home", "u"]));
    let options = vec![".".to_string(), "..".to_string()];
    let r = resolve(&session, &options, Some(0), false);
    assert_eq!(r, Resolution::Act(NavigationAction::NoOp));
    let forced = resolve(&session, &options, Some(0), true);
    assert_eq!(forced, Resolution::Act(NavigationAction::NoOp));
}

#[test]
fn choosing_self_elsewhere_with_force_finalizes_without_prompt() {
    let mut session = Session::new(path(&["home", "u"]));
    session.apply(&NavigationAction::Descend { name: "proj".to_string() });
    let options = vec![".".to_string(), "..".to_string()];
    let r = resolve(&session, &options, Some(0), true);
    assert_eq!(r, Resolution::Act(NavigationAction::Finalize));
}

#[test]
fn choosing_self_elsewhere_without_force_asks_first() {
    let mut session = Session::new(path(&["home", "u"]));
    session.apply(&NavigationAction::Descend { name: "proj".to_string() });
    let options = vec![".".to_string(), "..".to_string()];
    let r = resolve(&session, &options, Some(0), false);
    assert_eq!(r, Resolution::NeedConfirm);
    assert_eq!(resolve_confirmed(true), NavigationAction::Finalize);
    assert_eq!(resolve_confirmed(false), NavigationAction::NoOp);
}

#[test]
fn cancelling_terminates_with_no_output() {
    let mut session = Session::new(path(&["home", "u"]));
    let options = vec![".".to_string(), "..".to_string()];
    let r = resolve(&session, &options, None, false);
    assert_eq!(r, Resolution::Act(NavigationAction::Cancel));
    let outcome = session.apply(&NavigationAction::Cancel);
    assert_eq!(outcome, SessionOutcome::Terminate);
    assert_eq!(session.current.render(), "/home/u");
    assert_eq!(finalize_output(&NavigationAction::Cancel, &session), None);
}

#[test]
fn end_to_end_browse_descend_ascend_finalize() {
    let mut session = Session::new(path(&["home", "u", "proj"]));
    let children = vec![child("src", true), child("target", true), child(".git", true)];

    let options = get_path_options(&children, true, false);
    assert_eq!(options, vec![".", "..", "src", "target"]);

    let r = resolve(&session, &options, Some(2), false);
    assert_eq!(
        r,
        Resolution::Act(NavigationAction::Descend { name: "src".to_string() })
    );
    if let Resolution::Act(action) = r {
        assert_eq!(session.apply(&action), SessionOutcome::Continue);
    }
    assert_eq!(session.current.render(), "/home/u/proj/src");

    let inner = get_path_options(&vec![], true, false);
    let r = resolve(&session, &inner, Some(1), false);
    assert_eq!(r, Resolution::Act(NavigationAction::Ascend));
    if let Resolution::Act(action) = r {
        assert_eq!(session.apply(&action), SessionOutcome::Continue);
    }
    assert_eq!(session.current.render(), "/home/u/proj");

    // back at the origin, choosing `.` is deliberately a no-op
    let r = resolve(&session, &options, Some(0), true);
    assert_eq!(r, Resolution::Act(NavigationAction::NoOp));
    assert_eq!(session.apply(&NavigationAction::NoOp), SessionOutcome::Continue);

    // one level down, choosing `.` under force finalizes at once
    let r = resolve(&session, &options, Some(3), false);
    assert_eq!(
        r,
        Resolution::Act(NavigationAction::Descend { name: "target".to_string() })
    );
    if let Resolution::Act(action) = r {
        assert_eq!(session.apply(&action), SessionOutcome::Continue);
    }
    let r = resolve(&session, &options, Some(0), true);
    assert_eq!(r, Resolution::Act(NavigationAction::Finalize));
    if let Resolution::Act(action) = r {
        assert_eq!(session.apply(&action), SessionOutcome::Terminate);
        assert_eq!(
            finalize_output(&action, &session),
            Some("/home/u/proj/target".to_string())
        );
    }
}

#[test]
fn indexed_labels_resolve_to_raw_names() {
    let session = Session::new(path(&["home", "u"]));
    let options = vec!["[0] .".to_string(), "[1] ..".to_string(), "[2] src".to_string()];
    let r = resolve(&session, &options, Some(2), false);
    assert_eq!(
        r,
        Resolution::Act(NavigationAction::Descend { name: "src".to_string() })
    );
}

#[test]
fn index_prefix_stripping_cases() {
    assert_eq!(strip_index_prefix("[12] name"), "name");
    assert_eq!(strip_index_prefix("plain"), "plain");
    assert_eq!(strip_index_prefix(""), "");
    assert_eq!(strip_index_prefix("[x] a"), "[x] a");
    assert_eq!(strip_index_prefix("[] a"), "[] a");
    assert_eq!(strip_index_prefix("[2]a"), "[2]a");
    assert_eq!(strip_index_prefix("[3] "), "");
    assert_eq!(strip_index_prefix("[10] [11] x"), "[11] x");
    assert_eq!(strip_index_prefix("[5]"), "[5]");
}

#[test]
fn decimal_rendering_is_exact() {
    assert_eq!(usize_to_string(0), "0");
    assert_eq!(usize_to_string(7), "7");
    assert_eq!(usize_to_string(10), "10");
    assert_eq!(usize_to_string(12345), "12345");
}

#[test]
fn paths_render_with_leading_slashes() {
    assert_eq!(path(&[]).render(), "/");
    assert_eq!(path(&["a"]).render(), "/a");
    assert_eq!(path(&["a", "b", "c"]).render(), "/a/b/c");
}

#[test]
fn session_starts_at_its_origin() {
    let session = Session::new(path(&["srv", "data"]));
    assert!(session.at_origin());
    assert_eq!(session.origin.render(), "/srv/data");
    assert_eq!(session.current.render(), "/srv/data");
    let mut moved = session;
    moved.apply(&NavigationAction::Descend { name: "sub".to_string() });
    assert!(!moved.at_origin());
}

#[test]
fn finalize_prints_the_current_directory() {
    let session = Session::new(path(&["tmp"]));
    assert_eq!(
        finalize_output(&NavigationAction::Finalize, &session),
        Some("/tmp".to_string())
    );
    assert_eq!(finalize_output(&NavigationAction::NoOp, &session), None);
    assert_eq!(finalize_output(&NavigationAction::Ascend, &session), None);
}

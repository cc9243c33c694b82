use notion::activation::{activate, directive, write_outcome, ActivationError};
use notion::command::{message_of, Action, Failure, Invocation, UseCommand};
use notion::requirement::{ParseError, VersionRequirement};
use notion::resolve::{resolve, select_highest, ResolveError};
use notion::session::{ActivityKind, Session};
use notion::version::{compare, ConcreteVersion, Identifier};
use std::cmp::Ordering;

fn v(major: u64, minor: u64, patch: u64) -> ConcreteVersion {
    ConcreteVersion::new(major, minor, patch)
}

fn pre(major: u64, minor: u64, patch: u64, ids: Vec<Identifier>) -> ConcreteVersion {
    let mut r = ConcreteVersion::new(major, minor, patch);
    r.pre = ids;
    r
}

fn alpha(s: &str) -> Identifier {
    Identifier::AlphaNumeric(s.to_string())
}

fn req(s: &str) -> VersionRequirement {
    VersionRequirement::parse(s).unwrap()
}

fn invocation(version: &str, save: bool, help: bool, postscript: Option<&str>) -> Invocation {
    Invocation {
        version: version.to_string(),
        save,
        help,
        postscript: postscript.map(|p| p.to_string()),
    }
}

fn check_one_closed_record(session: &Session, code: i32, start: u64, end: u64) {
    assert_eq!(session.len(), 1);
    let r = session.record(0);
    assert_eq!(r.kind, ActivityKind::Use);
    assert_eq!(r.start, start);
    assert_eq!(r.end, Some(end));
    assert_eq!(r.exit_code, Some(code));
}

#[test]
fn parse_accepts_range_syntax() {
    for s in ["^4.0.0", "12", "*", "~1.2", "=1.2.3", ">= 1.0.0, < 2.0.0", "1.x", "12.4.2"] {
        let r = VersionRequirement::parse(s).unwrap();
        assert_eq!(r.as_str(), s);
    }
}

#[test]
fn parse_round_trip_keeps_the_range() {
    let a = req("^1.2");
    let b = req(a.as_str());
    for version in [v(1, 2, 0), v(1, 9, 9), v(1, 1, 9), v(2, 0, 0)] {
        assert_eq!(a.matches(&version), b.matches(&version));
    }
}

#[test]
fn parse_rejects_malformed_input() {
    for s in ["", "garbage", "abc.def", ">=", "1.2.3 <", ">= 1.0.0, <", "1.0.0-", "\0", "0.3.1.3"] {
        match VersionRequirement::parse(s) {
            Err(ParseError::InvalidRequirement(t)) => assert_eq!(t, s),
            Ok(_) => panic!("accepted {:?}", s),
        }
    }
}

#[test]
fn caret_matches_within_major() {
    let r = req("^1.0.0");
    assert!(r.matches(&v(1, 2, 3)));
    assert!(r.matches(&v(1, 3, 0)));
    assert!(!r.matches(&v(2, 0, 0)));
    assert!(!r.matches(&v(0, 9, 0)));
}

#[test]
fn resolve_picks_highest_matching() {
    let available = vec![v(1, 2, 3), v(1, 3, 0), v(2, 0, 0)];
    let got = resolve(&req("^1.0.0"), available).unwrap();
    assert_eq!((got.major, got.minor, got.patch), (1, 3, 0));
}

#[test]
fn resolve_reports_no_matching_version() {
    let available = vec![v(1, 2, 3), v(1, 3, 0), v(2, 0, 0)];
    assert_eq!(resolve(&req("^5.0.0"), available).unwrap_err(), ResolveError::NoMatchingVersion);
    assert_eq!(resolve(&req("^5.0.0"), Vec::new()).unwrap_err(), ResolveError::NoMatchingVersion);
}

#[test]
fn resolve_prefers_release_over_prerelease() {
    let available = vec![pre(1, 3, 0, vec![alpha("beta")]), v(1, 2, 0)];
    assert_eq!(select_highest(&req("^1.0.0"), &available), Some(1));
    let available = vec![pre(1, 3, 0, vec![alpha("alpha")]), pre(1, 3, 0, vec![alpha("beta")]), v(1, 3, 0)];
    assert_eq!(select_highest(&req(">=1.3.0-alpha"), &available), Some(2));
    assert_eq!(select_highest(&req(">=1.3.0-alpha, <1.3.0"), &available), Some(1));
}

#[test]
fn select_highest_keeps_first_of_equal_rank() {
    let mut b = v(1, 3, 0);
    b.build = vec![alpha("x")];
    let available = vec![v(1, 3, 0), b];
    assert_eq!(select_highest(&req("^1"), &available), Some(0));
}

#[test]
fn precedence_follows_semver() {
    assert_eq!(compare(&v(1, 0, 0), &v(1, 0, 1)), Ordering::Less);
    assert_eq!(compare(&v(2, 0, 0), &v(1, 9, 9)), Ordering::Greater);
    assert_eq!(compare(&pre(1, 0, 0, vec![alpha("alpha")]), &v(1, 0, 0)), Ordering::Less);
    assert_eq!(compare(&pre(1, 0, 0, vec![Identifier::Numeric(2)]), &pre(1, 0, 0, vec![alpha("a")])), Ordering::Less);
    assert_eq!(compare(&pre(1, 0, 0, vec![alpha("a")]), &pre(1, 0, 0, vec![alpha("a"), Identifier::Numeric(1)])), Ordering::Less);
    assert_eq!(compare(&pre(1, 0, 0, vec![Identifier::Numeric(11)]), &pre(1, 0, 0, vec![Identifier::Numeric(2)])), Ordering::Greater);
    assert_eq!(compare(&v(1, 2, 3), &v(1, 2, 3)), Ordering::Equal);
}

#[test]
fn copied_version_is_equal() {
    let mut a = pre(1, 2, 3, vec![alpha("rc"), Identifier::Numeric(1)]);
    a.build = vec![alpha("b7")];
    let b = a.copied();
    assert_eq!((b.major, b.minor, b.patch), (1, 2, 3));
    assert_eq!(b.pre, a.pre);
    assert_eq!(b.build, a.build);
    assert!(a.is_prerelease());
    assert!(!v(1, 0, 0).is_prerelease());
}

#[test]
fn directive_is_one_assignment_line() {
    assert_eq!(directive(&v(12, 4, 2)), "export NOTION_NODE_VERSION=12.4.2\n");
    let mut x = pre(1, 0, 0, vec![alpha("beta"), Identifier::Numeric(2)]);
    x.build = vec![alpha("sha")];
    assert_eq!(directive(&x), "export NOTION_NODE_VERSION=1.0.0-beta.2+sha\n");
}

#[test]
fn activation_replaces_previous_directive() {
    let first = activate(&v(10, 0, 0), Some("/tmp/postscript.sh".to_string())).unwrap();
    let second = activate(&v(12, 4, 2), Some("/tmp/postscript.sh".to_string())).unwrap();
    assert_eq!(first.path, "/tmp/postscript.sh");
    assert_eq!(second.path, first.path);
    assert_eq!(second.contents, "export NOTION_NODE_VERSION=12.4.2\n");
    assert_eq!(second.contents.lines().count(), 1);
}

#[test]
fn activation_without_channel_fails() {
    assert_eq!(activate(&v(12, 4, 2), None).unwrap_err(), ActivationError::NoActivationChannel);
}

#[test]
fn write_outcome_keeps_message() {
    assert_eq!(write_outcome(Ok(())), Ok(()));
    assert_eq!(
        write_outcome(Err("disk full".to_string())),
        Err(ActivationError::WriteFailed("disk full".to_string()))
    );
}

#[test]
fn session_brackets_activities() {
    let mut s = Session::new();
    assert_eq!(s.len(), 0);
    assert!(!s.add_event_end(ActivityKind::Use, 0, 1));
    s.add_event_start(ActivityKind::Use, 5);
    assert!(!s.add_event_end(ActivityKind::Help, 0, 6));
    assert!(s.add_event_end(ActivityKind::Use, 3, 7));
    assert!(!s.add_event_end(ActivityKind::Use, 0, 8));
    check_one_closed_record(&s, 3, 5, 7);
}

#[test]
fn global_use_activates_highest_version() {
    let mut session = Session::new();
    let mut cmd = UseCommand::new();
    let a = cmd.start(&mut session, invocation("^1.0.0", false, false, Some("/tmp/ps")), 10);
    assert!(matches!(a, Action::ListVersions));
    assert_eq!(session.len(), 1);
    assert_eq!(session.record(0).end, None);
    let a = cmd.versions_available(&mut session, vec![v(1, 2, 3), v(1, 3, 0), v(2, 0, 0)], 11);
    match a {
        Action::Install(x) => assert_eq!((x.major, x.minor, x.patch), (1, 3, 0)),
        other => panic!("{:?}", other),
    }
    let a = cmd.installed(&mut session, 12);
    match a {
        Action::Write(plan) => {
            assert_eq!(plan.path, "/tmp/ps");
            assert_eq!(plan.contents, "export NOTION_NODE_VERSION=1.3.0\n");
        }
        other => panic!("{:?}", other),
    }
    assert!(matches!(cmd.written(&mut session, Ok(()), 13), Action::Finish(0)));
    assert_eq!(cmd.failure_message(), None);
    check_one_closed_record(&session, 0, 10, 13);
}

#[test]
fn save_mode_is_not_implemented() {
    let mut session = Session::new();
    let mut cmd = UseCommand::new();
    assert!(matches!(cmd.start(&mut session, invocation("12", true, false, Some("/tmp/ps")), 1), Action::ListVersions));
    assert!(matches!(cmd.versions_available(&mut session, vec![v(12, 4, 2)], 2), Action::Install(_)));
    assert!(matches!(cmd.installed(&mut session, 3), Action::Finish(1)));
    let m = cmd.failure_message().unwrap();
    assert!(m.contains("not yet implemented"));
    check_one_closed_record(&session, 1, 1, 3);
}

#[test]
fn help_short_circuits() {
    let mut session = Session::new();
    let mut cmd = UseCommand::new();
    assert!(matches!(cmd.start(&mut session, invocation("", true, true, None), 1), Action::ShowHelp));
    assert!(matches!(cmd.help_shown(&mut session, 2), Action::Finish(0)));
    check_one_closed_record(&session, 0, 1, 2);
}

#[test]
fn bad_requirement_fails_at_once() {
    let mut session = Session::new();
    let mut cmd = UseCommand::new();
    assert!(matches!(cmd.start(&mut session, invocation("not a version", false, false, None), 4), Action::Finish(1)));
    assert_eq!(cmd.failure_message().unwrap(), "invalid version requirement: not a version");
    check_one_closed_record(&session, 1, 4, 4);
}

#[test]
fn no_matching_version_fails() {
    let mut session = Session::new();
    let mut cmd = UseCommand::new();
    cmd.start(&mut session, invocation("^5.0.0", false, false, Some("/tmp/ps")), 1);
    assert!(matches!(cmd.versions_available(&mut session, vec![v(1, 2, 3)], 2), Action::Finish(1)));
    assert_eq!(cmd.failure_message().unwrap(), "no available version matches the requirement");
    check_one_closed_record(&session, 1, 1, 2);
}

#[test]
fn install_failure_is_reported() {
    let mut session = Session::new();
    let mut cmd = UseCommand::new();
    cmd.start(&mut session, invocation("^1", false, false, Some("/tmp/ps")), 1);
    cmd.versions_available(&mut session, vec![v(1, 2, 3)], 2);
    assert!(matches!(cmd.collaborator_failed(&mut session, "network down".to_string(), 3), Action::Finish(1)));
    assert_eq!(cmd.failure_message().unwrap(), "could not install the version: network down");
    check_one_closed_record(&session, 1, 1, 3);
}

#[test]
fn missing_channel_is_reported() {
    let mut session = Session::new();
    let mut cmd = UseCommand::new();
    cmd.start(&mut session, invocation("^1", false, false, None), 1);
    cmd.versions_available(&mut session, vec![v(1, 2, 3)], 2);
    assert!(matches!(cmd.installed(&mut session, 3), Action::Finish(1)));
    assert_eq!(
        cmd.failure_message().unwrap(),
        "shell integration is not installed: there is no activation channel"
    );
    check_one_closed_record(&session, 1, 1, 3);
}

#[test]
fn write_failure_is_reported() {
    let mut session = Session::new();
    let mut cmd = UseCommand::new();
    cmd.start(&mut session, invocation("^1", false, false, Some("/tmp/ps")), 1);
    cmd.versions_available(&mut session, vec![v(1, 2, 3)], 2);
    cmd.installed(&mut session, 3);
    assert!(matches!(cmd.written(&mut session, Err("denied".to_string()), 4), Action::Finish(1)));
    assert_eq!(cmd.failure_message().unwrap(), "could not write the activation file: denied");
    check_one_closed_record(&session, 1, 1, 4);
}

#[test]
fn every_failure_has_a_message() {
    assert_eq!(
        message_of(&Failure::Unimplemented),
        "not yet implemented; in the meantime you can modify your package.json."
    );
    assert_eq!(
        message_of(&Failure::Parse(ParseError::InvalidRequirement("x".to_string()))),
        "invalid version requirement: x"
    );
    assert_eq!(
        message_of(&Failure::Activation(ActivationError::NoActivationChannel)),
        "shell integration is not installed: there is no activation channel"
    );
}

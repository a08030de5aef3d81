use fvkit_workspace::cli::{parse_input, parse_request, parse_u64, wants_help, CliRequest};
use fvkit_workspace::error::{Error, NumberProblem};
use fvkit_workspace::git::{
    branch_ref, checkout_branch, checkout_root, commit_argument, idle_verdict, linked_checkout, lines_of,
    lists_worktree, shared_repository, task_branch, worktree_registration, blocks_of,
};
use fvkit_workspace::ident::{namespace, token, unique};
use fvkit_workspace::journal::{begin, bump_revision, check_command, finish, watch_step, Start};
use fvkit_workspace::model::{
    Action, CollectWorkspace, ManagedWorkspace, OperationPhase, PutProject, RegisterRepository,
    WorkspaceCheckout, WorkspaceCommand, WorkspacePhase, WorkspaceSnapshot,
};
use fvkit_workspace::path::{join_path, path_components, path_starts_with, paths_equal, safe_path_plan, LinkState};
use fvkit_workspace::store::{projection_path, scaffold_dirs, volume_mounted, Store, SCHEMA_VERSION};
use fvkit_workspace::text::{is_blank, render_i64, render_u64, same_ignoring_ascii_case, split_str};

fn strings(v: &[&str]) -> Vec<String> {
    v.iter().map(|s| s.to_string()).collect()
}

fn store() -> Store {
    Store::new("/v".into(), "/state".into(), "/cache".into())
}

fn empty() -> WorkspaceSnapshot {
    store().snapshot(None).unwrap()
}

fn checkout(id: &str, path: &str) -> WorkspaceCheckout {
    WorkspaceCheckout {
        repository_id: id.into(),
        path: path.into(),
        base_commit: "abc".into(),
        branch: format!("fv/w1/{id}"),
        removed: false,
        removal_started: false,
    }
}

#[test]
fn tokens_accept_the_documented_alphabet_only() {
    assert_eq!(token("repo-1.x_y"), Ok(()));
    assert_eq!(token(&"a".repeat(100)), Ok(()));
    assert_eq!(token(&"a".repeat(101)), Err(Error::InvalidComponent("a".repeat(101))));
    assert_eq!(token(""), Err(Error::InvalidComponent(String::new())));
    assert_eq!(token("-lead"), Err(Error::InvalidComponent("-lead".into())));
    assert_eq!(token("a b"), Err(Error::InvalidComponent("a b".into())));
    assert_eq!(token("a/b"), Err(Error::InvalidComponent("a/b".into())));
    assert_eq!(
        Error::InvalidComponent("a b".into()).message(),
        "invalid ID/path component: a b"
    );
}

#[test]
fn namespaces_are_slash_separated_tokens() {
    assert_eq!(namespace("org/team"), Ok(()));
    assert_eq!(namespace(""), Err(Error::NamespaceRequired));
    assert_eq!(namespace("org//team"), Err(Error::InvalidComponent(String::new())));
    assert_eq!(namespace("org/-x/..y"), Err(Error::InvalidComponent("-x".into())));
}

#[test]
fn repository_ids_must_be_distinct() {
    assert_eq!(unique(&strings(&[])), Ok(()));
    assert_eq!(unique(&strings(&["a", "b"])), Ok(()));
    assert_eq!(unique(&strings(&["a", "b", "a"])), Err(Error::DuplicateRepositoryIds));
}

#[test]
fn decimal_rendering_and_messages() {
    assert_eq!(render_u64(0), "0");
    assert_eq!(render_u64(u64::MAX), "18446744073709551615");
    assert_eq!(render_i64(-42), "-42");
    assert_eq!(render_i64(i64::MIN), "-9223372036854775808");
    assert_eq!(Error::UnsupportedJournalVersion(7).message(), "unsupported journal version 7");
    assert_eq!(Error::MissingArgument(3).message(), "missing argument 3; run fv-workspace help");
    assert_eq!(Error::CollectionBlocked("x".into()).message(), "collection blocked: x");
    assert_eq!(
        Error::InvalidNumber(NumberProblem::Empty).message(),
        "cannot parse integer from empty string"
    );
    assert_eq!(Error::NoHead("bad".into()).message(), "clone has no HEAD; inspect it before retrying: bad");
    assert_eq!(Error::Io("denied".into()).message(), "denied");
}

#[test]
fn text_helpers() {
    assert_eq!(split_str("a//b/", '/'), strings(&["a", "", "b", ""]));
    assert!(same_ignoring_ascii_case("GitHub.com", "github.COM"));
    assert!(!same_ignoring_ascii_case("github.com", "gitlab.com"));
    assert!(is_blank(""));
    assert!(is_blank(" \t\n\u{3000}"));
    assert!(!is_blank(" x "));
}

#[test]
fn paths_compare_by_components() {
    assert_eq!(path_components("/a//b/./c/"), strings(&["/", "a", "b", "c"]));
    assert_eq!(path_components("./a"), strings(&[".", "a"]));
    assert_eq!(path_components("a/../b"), strings(&["a", "..", "b"]));
    assert!(paths_equal("/a/b/", "/a//b"));
    assert!(!paths_equal("/a/b", "/a/b/c"));
    assert!(path_starts_with("/v/workspaces/w1/src", "/v/workspaces/w1"));
    assert!(!path_starts_with("/v/workspaces/w10", "/v/workspaces/w1"));
    assert_eq!(join_path("/a", "b"), "/a/b");
    assert_eq!(join_path("/a/", "b"), "/a/b");
    assert_eq!(join_path("/a", "/b"), "/b");
    assert_eq!(join_path("", "b"), "b");
}

#[test]
fn safe_paths_are_absolute_link_free_and_never_climb() {
    assert_eq!(
        safe_path_plan("relative/x").err(),
        Some(Error::AbsolutePathRequired("relative/x".into()))
    );
    let plan = safe_path_plan("/a/b").unwrap();
    assert_eq!(plan.prefixes, strings(&["/", "/a", "/a/b"]));
    assert!(!plan.escapes);
    assert_eq!(plan.conclude(&vec![LinkState::Plain, LinkState::Plain, LinkState::Missing]), Ok(()));
    assert_eq!(
        plan.conclude(&vec![LinkState::Plain, LinkState::Symlink, LinkState::Missing]),
        Err(Error::SymlinkInPath("/a".into()))
    );
    assert_eq!(
        plan.conclude(&vec![LinkState::Failed("denied".into()), LinkState::Symlink, LinkState::Plain]),
        Err(Error::Io("denied".into()))
    );
    let climbing = safe_path_plan("/a/../b").unwrap();
    assert_eq!(climbing.prefixes, strings(&["/", "/a"]));
    assert!(climbing.escapes);
    assert_eq!(
        climbing.conclude(&vec![LinkState::Plain, LinkState::Plain]),
        Err(Error::UnsafePath("/a/../b".into()))
    );
    assert_eq!(
        climbing.conclude(&vec![LinkState::Plain, LinkState::Symlink]),
        Err(Error::SymlinkInPath("/a".into()))
    );
}

#[test]
fn git_output_is_read_as_std_reads_it() {
    assert_eq!(lines_of("a\r\nb\n"), strings(&["a", "b"]));
    assert_eq!(lines_of(""), strings(&[]));
    assert_eq!(lines_of("a\n\nb"), strings(&["a", "", "b"]));
    assert_eq!(blocks_of("x\n\ny\n"), strings(&["x", "y\n"]));
    let listing = "worktree /r\nHEAD abc\nbranch refs/heads/main\n\n\
worktree /v/workspaces/w1/src/h/n/r\nHEAD def\nbranch refs/heads/fv/w1/r\nlocked in use\n\n\
worktree /v/workspaces/w2/src/h/n/r\nHEAD def\nbranch refs/heads/fv/w2/r\n";
    assert_eq!(
        worktree_registration(listing, "/v/workspaces/w1/src/h/n/r"),
        Err(Error::WorktreeLocked)
    );
    assert_eq!(worktree_registration(listing, "/v/workspaces/w2/src/h/n/r"), Ok(()));
    assert_eq!(worktree_registration(listing, "/v/workspaces/w3/src/h/n/r"), Err(Error::NotRegistered));
    assert_eq!(worktree_registration("worktree /x\nlocked", "/x"), Err(Error::WorktreeLocked));
    assert_eq!(worktree_registration("worktree /x\nlockedx", "/x"), Ok(()));
    assert!(lists_worktree(listing, "/v/workspaces/w2/src/h/n/r"));
    assert!(!lists_worktree(listing, "/v/workspaces"));
}

#[test]
fn git_arguments_and_checkout_verdicts() {
    assert_eq!(commit_argument(""), Err(Error::RevisionRequired));
    assert_eq!(commit_argument("main"), Ok("main^{commit}".to_string()));
    assert_eq!(task_branch("w1", "r1"), "fv/w1/r1");
    assert_eq!(branch_ref("fv/w1/r1"), "refs/heads/fv/w1/r1");
    let c = checkout("r1", "/v/workspaces/w1/src/h/n/r1");
    assert_eq!(checkout_root(&c, "/v/workspaces/w1/src/h/n/r1"), Ok(()));
    assert_eq!(checkout_root(&c, "/v/workspaces/w1"), Err(Error::CheckoutRootChanged));
    assert_eq!(linked_checkout(true), Ok(()));
    assert_eq!(linked_checkout(false), Err(Error::LinkedCheckoutMissing));
    assert_eq!(shared_repository(false), Err(Error::DifferentRepository));
    assert_eq!(checkout_branch(&c, "fv/w1/r1"), Ok(()));
    assert_eq!(checkout_branch(&c, "main"), Err(Error::BranchChanged));
    assert_eq!(idle_verdict(false, Some(0), ""), Err(Error::ActiveProcesses));
    assert_eq!(idle_verdict(true, Some(1), ""), Ok(()));
    assert_eq!(
        idle_verdict(true, Some(1), "lsof: warning"),
        Err(Error::InspectionInconclusive("lsof: warning".into()))
    );
    assert_eq!(idle_verdict(true, None, ""), Err(Error::InspectionInconclusive(String::new())));
}

#[test]
fn numbers_read_as_u64_from_str() {
    assert_eq!(parse_u64(""), Err(Error::InvalidNumber(NumberProblem::Empty)));
    assert_eq!(parse_u64("+"), Err(Error::InvalidNumber(NumberProblem::InvalidDigit)));
    assert_eq!(parse_u64("-5"), Err(Error::InvalidNumber(NumberProblem::InvalidDigit)));
    assert_eq!(parse_u64("12a"), Err(Error::InvalidNumber(NumberProblem::InvalidDigit)));
    assert_eq!(parse_u64("+42"), Ok(42));
    assert_eq!(parse_u64("18446744073709551615"), Ok(u64::MAX));
    assert_eq!(parse_u64("18446744073709551616"), Err(Error::InvalidNumber(NumberProblem::TooLarge)));
    for s in ["", "+", "-5", "12a", "+42", "007", "18446744073709551616"] {
        assert_eq!(parse_u64(s).ok(), s.parse::<u64>().ok(), "{s}");
    }
}

#[test]
fn command_lines_map_to_requests() {
    assert!(wants_help(&strings(&[])));
    assert!(wants_help(&strings(&["--help"])));
    assert!(!wants_help(&strings(&["snapshot"])));
    assert!(matches!(parse_request(&strings(&["snapshot"]), false), Ok(CliRequest::Snapshot)));
    assert_eq!(parse_request(&strings(&["inspect"]), false).err(), Some(Error::MissingArgument(1)));
    assert!(matches!(parse_request(&strings(&["context", "w1"]), true), Ok(CliRequest::Context(w)) if w == "w1"));
    assert_eq!(parse_request(&strings(&["watch"]), true).err(), Some(Error::WatchBinary));
    assert!(matches!(parse_request(&strings(&["watch"]), false), Ok(CliRequest::Watch(0))));
    assert!(matches!(parse_request(&strings(&["watch", "5"]), false), Ok(CliRequest::Watch(5))));
    assert_eq!(
        parse_request(&strings(&["bogus"]), false).err(),
        Some(Error::UnknownCommand("bogus".into()))
    );
    assert_eq!(parse_request(&strings(&["clone"]), false).err(), Some(Error::MissingArgument(2)));
    assert_eq!(parse_request(&strings(&["collect", "req", "w"]), false).err(), Some(Error::MissingArgument(3)));
    assert_eq!(
        parse_request(&strings(&["project", "req", "p", "x", "10"]), false).err(),
        Some(Error::InvalidNumber(NumberProblem::InvalidDigit))
    );
    assert_eq!(
        parse_request(&strings(&["provision", "req", "w", "p", "r1=main", "bad"]), false).err(),
        Some(Error::ExpectedAssignment)
    );
    match parse_request(&strings(&["lease", "req", "w", "o", "1", "0", "60"]), false) {
        Ok(CliRequest::Mutate(c)) => {
            assert_eq!(c.request_id, "req");
            match c.action {
                Some(Action::Lease(l)) => {
                    assert_eq!((l.workspace_id.as_str(), l.owner.as_str()), ("w", "o"));
                    assert_eq!((l.expected_revision, l.generation, l.ttl_seconds), (1, 0, 60));
                }
                other => panic!("{other:?}"),
            }
        }
        other => panic!("{:?}", other.err()),
    }
    match parse_request(&strings(&["clone", "req", "id", "h", "ns", "n", "https://h/ns/n.git"]), false) {
        Ok(CliRequest::Mutate(c)) => match c.action {
            Some(Action::RegisterRepository(RegisterRepository { repository: Some(r) })) => {
                assert_eq!(r.clone_url, "https://h/ns/n.git");
                assert_eq!(r.path, "");
            }
            other => panic!("{other:?}"),
        },
        other => panic!("{:?}", other.err()),
    }
    match parse_request(&strings(&["project", "req", "p", "2", "86400", "r1", "r2"]), false) {
        Ok(CliRequest::Mutate(c)) => match c.action {
            Some(Action::PutProject(PutProject { project: Some(p), expected_revision })) => {
                assert_eq!(expected_revision, 2);
                assert_eq!(p.retention_seconds, 86400);
                assert_eq!(p.repository_ids, strings(&["r1", "r2"]));
                assert_eq!(p.display_name, "p");
            }
            other => panic!("{other:?}"),
        },
        other => panic!("{:?}", other.err()),
    }
    let input = parse_input("r=a=b").unwrap();
    assert_eq!((input.repository_id.as_str(), input.base_revision.as_str()), ("r", "a=b"));
    assert_eq!(parse_input("r").err(), Some(Error::ExpectedAssignment));
}

#[test]
fn journal_admission_records_and_replays() {
    let mut s = empty();
    let bad = WorkspaceCommand { request_id: "bad id".into(), action: None };
    assert_eq!(check_command(&bad), Err(Error::InvalidComponent("bad id".into())));
    let bare = WorkspaceCommand { request_id: "r1".into(), action: None };
    assert_eq!(check_command(&bare), Err(Error::ActionRequired));
    let command = WorkspaceCommand {
        request_id: "r1".into(),
        action: Some(Action::Collect(CollectWorkspace { workspace_id: "w".into(), expected_revision: 1 })),
    };
    assert_eq!(check_command(&command), Ok(()));
    assert!(matches!(begin(&mut s, &command), Ok(Start::Run(0))));
    assert_eq!(s.operations.len(), 1);
    assert_eq!(s.operations[0].phase, OperationPhase::Running);
    let blocked = finish(&mut s, 0, &Err(Error::UnknownWorkspace));
    assert_eq!(blocked.phase, OperationPhase::Blocked);
    assert_eq!(blocked.detail, "unknown workspace");
    assert_eq!(blocked.revision, 1);
    assert_eq!(s.revision, 1);
    assert!(matches!(begin(&mut s, &command), Ok(Start::Run(0))));
    assert_eq!(s.operations[0].phase, OperationPhase::Running);
    let done = finish(&mut s, 0, &Ok(()));
    assert_eq!((done.phase, done.detail.as_str(), done.revision), (OperationPhase::Succeeded, "complete", 2));
    let before = s.clone();
    match begin(&mut s, &command) {
        Ok(Start::Replay(op)) => assert_eq!(op, done),
        other => panic!("{:?}", other.err()),
    }
    assert_eq!(s, before);
    let other = WorkspaceCommand {
        request_id: "r1".into(),
        action: Some(Action::Collect(CollectWorkspace { workspace_id: "w".into(), expected_revision: 2 })),
    };
    assert_eq!(begin(&mut s, &other).err(), Some(Error::RequestReused));
    assert_eq!(s, before);
    s.revision = u64::MAX;
    assert_eq!(bump_revision(&mut s), Err(Error::RevisionExhausted));
    assert_eq!(s.revision, u64::MAX);
}

#[test]
fn watches_send_first_and_then_only_changes() {
    assert_eq!(watch_step(true, 5, 5), (true, 5));
    assert_eq!(watch_step(false, 5, 5), (false, 5));
    assert_eq!(watch_step(false, 5, 6), (true, 6));
    assert_eq!(watch_step(false, 5, 3), (true, 3));
}

#[test]
fn stored_journals_are_admitted_for_this_root_and_version() {
    let st = store();
    let fresh = st.snapshot(None).unwrap();
    assert_eq!(fresh.schema_version, SCHEMA_VERSION);
    assert_eq!((fresh.root.as_str(), fresh.revision), ("/v", 0));
    let mut other = fresh.clone();
    other.schema_version = 2;
    assert_eq!(st.snapshot(Some(other)).err(), Some(Error::UnsupportedJournalVersion(2)));
    let mut trailing = fresh.clone();
    trailing.root = "/v/".into();
    assert!(st.snapshot(Some(trailing)).is_ok());
    let mut moved = fresh;
    moved.root = "/elsewhere".into();
    assert_eq!(st.snapshot(Some(moved)).err(), Some(Error::RootChanged));
}

#[test]
fn store_layout() {
    let st = Store::configured("/v".into(), "/home/u/.config/fv", "/cache".into());
    assert_eq!(st.state, "/home/u/.config/fv/workspaces");
    assert_eq!(st.catalog_path(), "/home/u/.config/fv/workspaces/catalog.pb");
    assert_eq!(st.lock_path(), "/home/u/.config/fv/workspaces/writer.lock");
    assert_eq!(st.workspace_dir("w1"), "/v/workspaces/w1");
    assert_eq!(st.project_descriptor("p"), "/v/projects/p/project.pb");
    assert_eq!(st.volume_dirs(), strings(&["/v/projects", "/v/repos", "/v/workspaces", "/v/artifacts"]));
    assert_eq!(projection_path("/v/workspaces/w1"), "/v/workspaces/w1/workspace.pb");
    assert_eq!(
        scaffold_dirs("/v/workspaces/w1"),
        strings(&["/v/workspaces/w1/src", "/v/workspaces/w1/run", "/v/workspaces/w1/out"])
    );
    assert_eq!(volume_mounted(true), Ok(()));
    assert_eq!(volume_mounted(false), Err(Error::VolumeMissing));
    assert!(path_starts_with(&st.workspace_dir("w1"), "/v/workspaces"));
    assert_eq!(path_components(&st.workspace_dir("w1")).len(), path_components("/v/workspaces").len() + 1);
}

fn workspace(id: &str, path: &str, phase: WorkspacePhase) -> ManagedWorkspace {
    ManagedWorkspace {
        id: id.into(),
        project_id: "p".into(),
        path: path.into(),
        phase,
        revision: 1,
        ..Default::default()
    }
}

#[test]
fn legacy_removal_is_refused_inside_managed_workspaces() {
    let st = store();
    let mut s = empty();
    s.workspaces.push(workspace("w1", "/v/workspaces/w1", WorkspacePhase::Ready));
    assert_eq!(st.ensure_unmanaged(&s, "/v/workspaces/w1/src/x"), Err(Error::Managed));
    assert_eq!(st.ensure_unmanaged(&s, "/v/workspaces/w1"), Err(Error::Managed));
    assert_eq!(st.ensure_unmanaged(&s, "/v/workspaces/w10"), Ok(()));
    assert_eq!(st.ensure_unmanaged(&s, "/v/repos"), Ok(()));
}

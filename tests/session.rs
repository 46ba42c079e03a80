use trust_gate::config::{StartupPrompt, TrustConfiguration, UntrustedFilesPolicy};
use trust_gate::prompt::{
    prompt_owed, untrusted_file_outcome, workspace_options, UntrustedFilePrompt, WorkspacePrompt,
};
use trust_gate::resolve::{resolve, Origin};
use trust_gate::session::{PromptRequest, TrustError, TrustSession};
use trust_gate::TrustStatus;

fn file(p: &str) -> Origin {
    Origin::File(p.to_string())
}

fn workspace(p: &str) -> Origin {
    Origin::Workspace(p.to_string())
}

fn session_with(dirs: &[&str]) -> TrustSession {
    let mut config = TrustConfiguration::default();
    config.trusted_directories = dirs.iter().map(|d| d.to_string()).collect();
    TrustSession::new(config)
}

#[test]
fn override_precedence() {
    let mut session = session_with(&["/home/user/proj"]);
    let doc = session.open(file("/srv/data/notes.txt"));
    assert_eq!(doc.status, TrustStatus::Restricted);
    assert_eq!(session.set_trust(doc.id, TrustStatus::Trusted, false), Ok(None));
    assert_eq!(session.status_of(doc.id), Some(TrustStatus::Trusted));
    assert_eq!(resolve(&file("/srv/data/notes.txt"), &session.config), TrustStatus::Restricted);
    let again = session.open(file("/srv/data/notes.txt"));
    assert_eq!(again.status, TrustStatus::Restricted);
    assert_eq!(session.config.trusted_directories.len(), 1);
}

#[test]
fn remember_semantics() {
    let mut session = TrustSession::new(TrustConfiguration::default());
    let doc = session.open(file("/srv/data/notes.txt"));
    assert_eq!(doc.status, TrustStatus::Restricted);
    let added = session.set_trust(doc.id, TrustStatus::Trusted, true).unwrap();
    assert_eq!(added, Some("/srv/data/".to_string()));
    let sibling = session.open(file("/srv/data/other.txt"));
    assert_eq!(sibling.status, TrustStatus::Trusted);
    assert!(sibling.prompt.is_none());
    let outside = session.open(file("/srv/elsewhere.txt"));
    assert_eq!(outside.status, TrustStatus::Restricted);
}

#[test]
fn remember_restricted_adds_nothing() {
    let mut session = TrustSession::new(TrustConfiguration::default());
    let doc = session.open(file("/srv/data/notes.txt"));
    assert_eq!(session.set_trust(doc.id, TrustStatus::Restricted, true), Ok(None));
    assert!(session.config.trusted_directories.is_empty());
}

#[test]
fn remember_workspace_adds_its_folder() {
    let mut session = TrustSession::new(TrustConfiguration::default());
    let ws = session.open(workspace("/home/user/proj"));
    let added = session.set_trust(ws.id, TrustStatus::Trusted, true).unwrap();
    assert_eq!(added, Some("/home/user/proj".to_string()));
    let inside = session.open(file("/home/user/proj/src/lib.rs"));
    assert_eq!(inside.status, TrustStatus::Trusted);
}

#[test]
fn set_trust_invalid_target() {
    let mut session = TrustSession::new(TrustConfiguration::default());
    assert_eq!(session.set_trust(7, TrustStatus::Trusted, false), Err(TrustError::InvalidTarget));
    let doc = session.open(Origin::Scratch);
    assert_eq!(session.close(doc.id), Ok(()));
    assert_eq!(session.set_trust(doc.id, TrustStatus::Trusted, false), Err(TrustError::InvalidTarget));
    assert_eq!(session.status_of(doc.id), None);
    assert_eq!(session.close(doc.id), Err(TrustError::InvalidTarget));
}

#[test]
fn prompt_deduplication() {
    let mut session = TrustSession::new(TrustConfiguration::default());
    let first = session.open(workspace("/home/user/proj"));
    let second = session.open(workspace("/home/user/proj"));
    assert!(first.prompt.is_some());
    assert!(second.prompt.is_none());
    assert_eq!(second.status, TrustStatus::Restricted);
}

#[test]
fn prompt_always_repeats() {
    let mut config = TrustConfiguration::default();
    config.startup_prompt = StartupPrompt::Always;
    let mut session = TrustSession::new(config);
    assert!(session.open(workspace("/w")).prompt.is_some());
    assert!(session.open(workspace("/w")).prompt.is_some());
}

#[test]
fn prompt_never_is_silent() {
    let mut config = TrustConfiguration::default();
    config.startup_prompt = StartupPrompt::Never;
    let mut session = TrustSession::new(config);
    let opened = session.open(workspace("/w"));
    assert!(opened.prompt.is_none());
    assert_eq!(opened.status, TrustStatus::Restricted);
}

#[test]
fn trusted_and_scratch_owe_no_prompt() {
    let mut session = session_with(&["/w"]);
    assert!(session.open(workspace("/w")).prompt.is_none());
    assert!(session.open(Origin::Scratch).prompt.is_none());
    assert!(session.open(Origin::EmptyWindow).prompt.is_none());
}

#[test]
fn workspace_prompt_options() {
    let mut session = TrustSession::new(TrustConfiguration::default());
    let opened = session.open(workspace("/home/user/proj"));
    match opened.prompt {
        Some(PromptRequest::Workspace(cmds)) => {
            assert_eq!(cmds.len(), 3);
            assert_eq!(cmds[0].action, WorkspacePrompt::Trust);
            assert_eq!(cmds[0].path, "/home/user/proj");
            assert_eq!(cmds[0].description, "Trust this folder");
            assert_eq!(cmds[1].action, WorkspacePrompt::TrustParent);
            assert_eq!(cmds[1].path, "/home/user/");
            assert_eq!(cmds[1].description, "Trust the parent folder");
            assert_eq!(cmds[2].action, WorkspacePrompt::DontTrust);
            assert_eq!(cmds[2].path, "/home/user/proj");
            assert_eq!(cmds[2].description, "Browse in restricted mode");
        }
        other => panic!("expected a workspace prompt, got {:?}", other),
    }
}

#[test]
fn workspace_options_for_root_offer_root() {
    let cmds = workspace_options("/", "/");
    assert_eq!(cmds[1].path, "/");
}

#[test]
fn answer_trust_parent_remembers_parent() {
    let mut session = TrustSession::new(TrustConfiguration::default());
    let ws = session.open(workspace("/home/user/proj"));
    let added = session.answer_prompt(ws.id, WorkspacePrompt::TrustParent, true).unwrap();
    assert_eq!(added, Some("/home/user/".to_string()));
    assert_eq!(session.status_of(ws.id), Some(TrustStatus::Trusted));
    let sibling = session.open(workspace("/home/user/other"));
    assert_eq!(sibling.status, TrustStatus::Trusted);
    assert_eq!(
        session.answer_prompt(ws.id, WorkspacePrompt::Trust, false),
        Err(TrustError::NoPromptPending)
    );
}

#[test]
fn answer_dont_trust_keeps_restricted() {
    let mut session = TrustSession::new(TrustConfiguration::default());
    let ws = session.open(workspace("/w"));
    assert_eq!(session.answer_prompt(ws.id, WorkspacePrompt::DontTrust, true), Ok(None));
    assert_eq!(session.status_of(ws.id), Some(TrustStatus::Restricted));
    assert!(session.config.trusted_directories.is_empty());
    assert_eq!(
        session.answer_prompt(99, WorkspacePrompt::Trust, false),
        Err(TrustError::InvalidTarget)
    );
}

#[test]
fn answer_trust_without_remember() {
    let mut session = TrustSession::new(TrustConfiguration::default());
    let ws = session.open(workspace("/w"));
    assert_eq!(session.answer_prompt(ws.id, WorkspacePrompt::Trust, false), Ok(None));
    assert_eq!(session.status_of(ws.id), Some(TrustStatus::Trusted));
    assert_eq!(session.open(workspace("/w")).status, TrustStatus::Restricted);
}

#[test]
fn untrusted_file_prompt_flow() {
    let mut session = session_with(&["/w"]);
    let ws = session.open(workspace("/w"));
    assert_eq!(ws.status, TrustStatus::Trusted);
    let f = session.open_untrusted_file(ws.id, "/x/evil.sh".to_string()).unwrap();
    assert_eq!(f.status, TrustStatus::Restricted);
    match f.prompt {
        Some(PromptRequest::UntrustedFile(options)) => assert_eq!(
            options,
            vec![
                UntrustedFilePrompt::Open,
                UntrustedFilePrompt::OpenRestricted,
                UntrustedFilePrompt::Cancel
            ]
        ),
        other => panic!("expected an untrusted-file prompt, got {:?}", other),
    }
    assert_eq!(session.answer_file_prompt(f.id, UntrustedFilePrompt::Open), Ok(()));
    assert_eq!(session.status_of(f.id), Some(TrustStatus::Trusted));
    assert_eq!(
        session.answer_file_prompt(f.id, UntrustedFilePrompt::Open),
        Err(TrustError::NoPromptPending)
    );
}

#[test]
fn untrusted_file_cancel_closes_it() {
    let mut session = session_with(&["/w"]);
    let ws = session.open(workspace("/w"));
    let f = session.open_untrusted_file(ws.id, "/x/evil.sh".to_string()).unwrap();
    assert_eq!(session.answer_file_prompt(f.id, UntrustedFilePrompt::Cancel), Ok(()));
    assert_eq!(session.status_of(f.id), None);
    assert_eq!(
        session.answer_file_prompt(f.id, UntrustedFilePrompt::Cancel),
        Err(TrustError::InvalidTarget)
    );
}

#[test]
fn untrusted_file_restricted_answer() {
    let mut session = session_with(&["/w"]);
    let ws = session.open(workspace("/w"));
    let f = session.open_untrusted_file(ws.id, "/x/evil.sh".to_string()).unwrap();
    assert_eq!(session.answer_file_prompt(f.id, UntrustedFilePrompt::OpenRestricted), Ok(()));
    assert_eq!(session.status_of(f.id), Some(TrustStatus::Restricted));
}

#[test]
fn untrusted_file_policies_short_circuit() {
    let mut config = TrustConfiguration::default();
    config.trusted_directories = vec!["/w".to_string()];
    config.untrusted_files_policy = UntrustedFilesPolicy::Open;
    let mut session = TrustSession::new(config.clone());
    let ws = session.open(workspace("/w"));
    let f = session.open_untrusted_file(ws.id, "/x/a".to_string()).unwrap();
    assert_eq!(f.status, TrustStatus::Trusted);
    assert!(f.prompt.is_none());

    config.untrusted_files_policy = UntrustedFilesPolicy::NewWindowRestricted;
    let mut session = TrustSession::new(config);
    let ws = session.open(workspace("/w"));
    let f = session.open_untrusted_file(ws.id, "/x/a".to_string()).unwrap();
    assert_eq!(f.status, TrustStatus::Restricted);
    assert!(f.prompt.is_none());
    assert_eq!(
        session.answer_file_prompt(f.id, UntrustedFilePrompt::Open),
        Err(TrustError::NoPromptPending)
    );
}

#[test]
fn file_in_trusted_folder_or_restricted_workspace_is_not_gated() {
    let mut session = session_with(&["/w"]);
    let ws = session.open(workspace("/w"));
    let inside = session.open_untrusted_file(ws.id, "/w/a.rs".to_string()).unwrap();
    assert_eq!(inside.status, TrustStatus::Trusted);
    assert!(inside.prompt.is_none());
    let restricted = session.open(workspace("/r"));
    let f = session.open_untrusted_file(restricted.id, "/x/a".to_string()).unwrap();
    assert_eq!(f.status, TrustStatus::Restricted);
    assert!(f.prompt.is_none());
    assert_eq!(
        session.open_untrusted_file(1000, "/x/a".to_string()).err(),
        Some(TrustError::InvalidTarget)
    );
}

#[test]
fn banner_per_target() {
    let mut session = session_with(&["/w"]);
    let trusted = session.open(workspace("/w"));
    let restricted = session.open(workspace("/r"));
    assert_eq!(session.banner_of(trusted.id), Ok(false));
    assert_eq!(session.banner_of(restricted.id), Ok(true));
    assert_eq!(session.dismiss_banner(restricted.id), Ok(()));
    assert_eq!(session.banner_of(restricted.id), Ok(false));
    assert_eq!(session.banner_of(55), Err(TrustError::InvalidTarget));
    assert_eq!(session.dismiss_banner(55), Err(TrustError::InvalidTarget));
}

#[test]
fn prompt_decisions() {
    assert!(prompt_owed(TrustStatus::Restricted, StartupPrompt::Once, false));
    assert!(!prompt_owed(TrustStatus::Restricted, StartupPrompt::Once, true));
    assert!(prompt_owed(TrustStatus::Restricted, StartupPrompt::Always, true));
    assert!(!prompt_owed(TrustStatus::Restricted, StartupPrompt::Never, false));
    assert!(!prompt_owed(TrustStatus::Trusted, StartupPrompt::Always, false));
    assert_eq!(untrusted_file_outcome(UntrustedFilesPolicy::Prompt), None);
    assert_eq!(
        untrusted_file_outcome(UntrustedFilesPolicy::Open),
        Some(UntrustedFilePrompt::Open)
    );
    assert_eq!(
        untrusted_file_outcome(UntrustedFilesPolicy::NewWindowRestricted),
        Some(UntrustedFilePrompt::OpenRestricted)
    );
}

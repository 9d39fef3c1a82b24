use vacs::calls::{Call, CallInvite, CallSource, CallTarget};

fn client(id: &str) -> String {
    id.to_string()
}

fn target(id: &str) -> CallTarget {
    CallTarget::Client(client(id))
}

fn participants(ids: &[&str]) -> Vec<(String, CallTarget)> {
    ids.iter().map(|id| (client(id), target(id))).collect()
}

fn same_entries(a: &[(String, CallTarget)], b: &[(String, CallTarget)]) -> bool {
    a.len() == b.len() && a.iter().all(|x| b.contains(x))
}

fn call(caller: &str, targets: &[&str]) -> Call {
    let invite = CallInvite {
        call_id: 7,
        source: CallSource {
            client_id: client(caller),
            position_id: None,
            station_id: None,
        },
        targets: targets.iter().map(|id| target(id)).collect(),
        prio: false,
    };
    Call::from_invite(&invite)
}

#[test]
fn update_when_joining_reports_all_other_participants() {
    let mut call = call("a", &["b", "c"]);
    assert!(!call.is_active(&client("a")));

    let (added, removed) = call.update(
        &client("a"),
        vec![target("c")],
        participants(&["a", "b"]),
        None,
    );

    assert!(same_entries(&added, &participants(&["b"])));
    assert!(removed.is_empty());
    assert!(call.is_active(&client("a")));
}

#[test]
fn update_while_active_reports_joined_and_left_participants() {
    let mut call = call("a", &["b", "c"]);
    call.update(
        &client("a"),
        vec![target("c")],
        participants(&["a", "b"]),
        None,
    );

    let (added, removed) = call.update(&client("a"), vec![], participants(&["a", "c"]), None);

    assert!(same_entries(&added, &participants(&["c"])));
    assert_eq!(removed, vec![client("b")]);
    assert!(same_entries(&call.joined_participants, &participants(&["a", "c"])));
}

#[test]
fn update_without_self_reports_no_deltas() {
    let mut call = call("a", &["b", "c"]);

    let (added, removed) = call.update(
        &client("a"),
        vec![target("c")],
        participants(&["b"]),
        None,
    );
    assert!(added.is_empty());
    assert!(removed.is_empty());
    assert!(!call.is_active(&client("a")));

    call.update(&client("a"), vec![], participants(&["a", "b"]), None);
    let (added, removed) = call.update(&client("a"), vec![], participants(&["b"]), None);
    assert!(added.is_empty());
    assert!(removed.is_empty());
    assert!(!call.is_active(&client("a")));
}

#[test]
fn update_replaces_invited_targets_and_participants() {
    let mut call = call("a", &["b", "c"]);
    assert_eq!(call.invited_targets, vec![target("b"), target("c")]);

    call.update(&client("a"), vec![target("c")], participants(&["b"]), None);

    assert_eq!(call.invited_targets, vec![target("c")]);
    assert!(same_entries(&call.joined_participants, &participants(&["b"])));
    assert!(!call.is_empty());

    call.update(&client("a"), vec![], vec![], None);
    assert!(call.is_empty());
}

#[test]
fn invited_targets_are_added_once_and_removed() {
    let mut call = call("a", &["b"]);
    call.add_invited_targets(vec![target("b"), target("c"), CallTarget::Station("LOVV_CTR".to_string())]);
    assert_eq!(
        call.invited_targets,
        vec![target("b"), target("c"), CallTarget::Station("LOVV_CTR".to_string())]
    );
    call.remove_invited_targets(&vec![target("b"), target("x")]);
    assert_eq!(
        call.invited_targets,
        vec![target("c"), CallTarget::Station("LOVV_CTR".to_string())]
    );
    assert_ne!(target("c"), CallTarget::Position("c".to_string()));
}

#[test]
fn withdrawing_fresh_invitations_restores_the_invited_targets() {
    let mut c = call("a", &["b"]);
    c.add_invited_targets(vec![target("c"), target("d")]);
    assert_eq!(c.invited_targets, vec![target("b"), target("c"), target("d")]);
    c.remove_invited_targets(&vec![target("c"), target("d")]);
    assert_eq!(c.invited_targets, vec![target("b")]);
}

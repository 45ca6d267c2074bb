use slack_rs::api::conversations::ListResponse;
use slack_rs::api::rtm::ConnectResponse;
use slack_rs::model::{Channel, Group, Im, Me, Mpim, Purpose, Team, Topic, Workspace};

fn topic() -> Topic {
    Topic { value: String::new(), creator: "U1".to_string(), last_set: 0 }
}

fn purpose() -> Purpose {
    Purpose { value: String::new(), creator: "U1".to_string(), last_set: 0 }
}

fn channel(id: &str) -> Channel {
    Channel {
        id: id.to_string(),
        name: format!("name-{}", id),
        is_channel: true,
        created: 1,
        creator: "U1".to_string(),
        is_archived: false,
        is_general: false,
        name_normalized: format!("name-{}", id),
        is_shared: false,
        is_org_shared: false,
        is_member: true,
        is_private: false,
        is_mpim: false,
        topic: topic(),
        purpose: purpose(),
    }
}

fn group(id: &str) -> Group {
    Group {
        id: id.to_string(),
        name: format!("name-{}", id),
        is_channel: false,
        is_im: false,
        created: 2,
        creator: "U1".to_string(),
        is_archived: false,
        is_general: false,
        name_normalized: format!("name-{}", id),
        is_ext_shared: false,
        shared_team_ids: vec!["T1".to_string()],
        is_pending_ext_shared: false,
        is_shared: false,
        is_org_shared: false,
        is_member: true,
        is_private: true,
        is_mpim: false,
        topic: topic(),
        purpose: purpose(),
    }
}

fn im(id: &str) -> Im {
    Im {
        id: id.to_string(),
        created: 3,
        is_im: true,
        is_org_shared: false,
        user: "U2".to_string(),
        is_user_deleted: false,
    }
}

fn mpim(id: &str) -> Mpim {
    Mpim {
        id: id.to_string(),
        name: format!("mpdm-{}", id),
        is_mpim: true,
        is_group: true,
        created: 4,
        creator: "U1".to_string(),
        is_archived: false,
        is_member: true,
        is_private: true,
        topic: topic(),
        purpose: purpose(),
    }
}

fn workspace() -> Workspace {
    Workspace {
        team: None,
        me: None,
        token: "xoxp-token".to_string(),
        message_id: Workspace::init_message_id(),
        channels: Workspace::init_channels(),
        groups: Workspace::init_groups(),
        ims: Workspace::init_ims(),
        mpims: Workspace::init_mpims(),
    }
}

fn team(name: &str) -> Team {
    Team { id: "T1".to_string(), name: name.to_string() }
}

#[test]
fn init_values_are_empty() {
    assert_eq!(Workspace::init_message_id(), 0);
    assert!(Workspace::init_channels().is_empty());
    assert!(Workspace::init_groups().is_empty());
    assert!(Workspace::init_ims().is_empty());
    assert!(Workspace::init_mpims().is_empty());
}

#[test]
fn team_name_without_team_is_empty() {
    assert_eq!(workspace().team_name(), "");
}

#[test]
fn team_name_with_team() {
    let mut w = workspace();
    w.set_team(team("Acme"));
    assert_eq!(w.team_name(), "Acme");
}

#[test]
fn setters_replace_only_their_field() {
    let mut w = workspace();
    w.set_channels(vec![channel("C1"), channel("C2")]);
    w.set_groups(vec![group("G1")]);
    w.set_ims(vec![im("D1"), im("D2"), im("D3")]);
    w.set_mpims(vec![mpim("M1")]);
    w.set_me(Me { id: "U1".to_string(), name: "me".to_string() });
    assert_eq!(w.channels.len(), 2);
    assert_eq!(w.channels[1].id, "C2");
    assert_eq!(w.groups.len(), 1);
    assert_eq!(w.ims.len(), 3);
    assert_eq!(w.mpims.len(), 1);
    assert_eq!(w.me.as_ref().unwrap().name, "me");
    assert_eq!(w.token, "xoxp-token");
    assert_eq!(w.message_id, 0);
    assert!(w.team.is_none());
    w.set_channels(Vec::new());
    assert!(w.channels.is_empty());
    assert_eq!(w.groups.len(), 1);
}

#[test]
fn message_id_counts_up() {
    let mut w = workspace();
    assert_eq!(w.message_id(), 0);
    assert_eq!(w.message_id(), 1);
    assert_eq!(w.message_id(), 2);
    assert_eq!(w.message_id, 3);
}

#[test]
fn ping_frames_carry_consecutive_ids() {
    let mut w = workspace();
    assert_eq!(w.ping(), "{\"id\": \"0\", \"type\": \"ping\"}");
    assert_eq!(w.ping(), "{\"id\": \"1\", \"type\": \"ping\"}");
    assert_eq!(w.message_id, 2);
}

#[test]
fn ping_frame_writes_the_id_in_decimal() {
    let mut w = workspace();
    w.message_id = 1234567890;
    assert_eq!(w.ping(), "{\"id\": \"1234567890\", \"type\": \"ping\"}");
    w.message_id = 10;
    assert_eq!(w.ping(), "{\"id\": \"10\", \"type\": \"ping\"}");
    w.message_id = u64::MAX - 1;
    assert_eq!(w.ping(), "{\"id\": \"18446744073709551614\", \"type\": \"ping\"}");
    assert_eq!(w.message_id, u64::MAX);
}

#[test]
fn successive_ping_frames_differ() {
    let mut w = workspace();
    let mut frames: Vec<String> = Vec::new();
    for _ in 0..25 {
        frames.push(w.ping());
    }
    for i in 0..frames.len() {
        for j in 0..frames.len() {
            if i != j {
                assert_ne!(frames[i], frames[j]);
            }
        }
    }
}

#[test]
fn ping_frame_is_the_json_that_the_id_formats_to() {
    let mut w = workspace();
    for id in [0u64, 7, 9, 99, 100, 65535, 4294967296] {
        w.message_id = id;
        assert_eq!(w.ping(), format!("{{\"id\": \"{id}\", \"type\": \"ping\"}}", id = id));
    }
}

#[test]
fn handle_ping_reports_and_pings() {
    let mut w = workspace();
    w.set_team(team("Acme"));
    w.set_channels(vec![channel("C1"), channel("C2")]);
    w.set_ims(vec![im("D1")]);
    w.message_id = 12;
    let step = Workspace::handle_ping(&mut w);
    assert_eq!(
        step.report,
        vec![
            "TEAM: Acme".to_string(),
            "public_channels: 2".to_string(),
            "private_channels: 0".to_string(),
            "ims: 1".to_string(),
            "mpims: 0".to_string(),
        ]
    );
    assert_eq!(step.frame, "{\"id\": \"12\", \"type\": \"ping\"}");
    assert_eq!(w.message_id, 13);
    assert_eq!(w.channels.len(), 2);
}

#[test]
fn handle_ping_without_team() {
    let mut w = workspace();
    let step = Workspace::handle_ping(&mut w);
    assert_eq!(step.report[0], "TEAM: ");
    assert_eq!(step.frame, "{\"id\": \"0\", \"type\": \"ping\"}");
}

#[test]
fn apply_connect_response_records_team_and_me() {
    let mut w = workspace();
    let url = w.apply_connect_response(ConnectResponse {
        ok: true,
        url: Some("wss://example.invalid/socket".to_string()),
        team: Some(team("Acme")),
        me: Some(Me { id: "U9".to_string(), name: "bot".to_string() }),
        error: None,
    });
    assert_eq!(url, Some("wss://example.invalid/socket".to_string()));
    assert_eq!(w.team_name(), "Acme");
    assert_eq!(w.me.as_ref().unwrap().id, "U9");
}

#[test]
fn apply_connect_response_keeps_what_is_missing() {
    let mut w = workspace();
    w.set_team(team("Old"));
    let url = w.apply_connect_response(ConnectResponse {
        ok: false,
        url: None,
        team: None,
        me: None,
        error: Some("invalid_auth".to_string()),
    });
    assert_eq!(url, None);
    assert_eq!(w.team_name(), "Old");
    assert!(w.me.is_none());
}

#[test]
fn apply_conversation_lists_replaces_all_four() {
    let mut w = workspace();
    w.set_groups(vec![group("old")]);
    let mut public = ListResponse::<Channel>::empty();
    public.channels.push(channel("C1"));
    let private = ListResponse::<Group>::empty();
    let mut ims = ListResponse::<Im>::empty();
    ims.channels.push(im("D1"));
    ims.channels.push(im("D2"));
    let mut mpims = ListResponse::<Mpim>::empty();
    mpims.channels.push(mpim("M1"));
    w.apply_conversation_lists(public, private, ims, mpims);
    assert_eq!(w.channels.len(), 1);
    assert_eq!(w.channels[0].id, "C1");
    assert!(w.groups.is_empty());
    assert_eq!(w.ims.len(), 2);
    assert_eq!(w.ims[1].id, "D2");
    assert_eq!(w.mpims[0].id, "M1");
    assert_eq!(w.token, "xoxp-token");
}

#[test]
fn report_after_lists_counts_them() {
    let mut w = workspace();
    let mut public = ListResponse::<Channel>::empty();
    for i in 0..11 {
        public.channels.push(channel(&format!("C{}", i)));
    }
    let mut private = ListResponse::<Group>::empty();
    private.channels.push(group("G1"));
    let ims = ListResponse::<Im>::empty();
    let mut mpims = ListResponse::<Mpim>::empty();
    mpims.channels.push(mpim("M1"));
    mpims.channels.push(mpim("M2"));
    w.apply_conversation_lists(public, private, ims, mpims);
    let step = Workspace::handle_ping(&mut w);
    assert_eq!(step.report[1], "public_channels: 11");
    assert_eq!(step.report[2], "private_channels: 1");
    assert_eq!(step.report[3], "ims: 0");
    assert_eq!(step.report[4], "mpims: 2");
}

#[test]
fn report_leaves_the_workspace_alone() {
    let mut w = workspace();
    w.set_team(team("Acme"));
    w.message_id = u64::MAX;
    let report = w.report();
    assert_eq!(report[0], "TEAM: Acme");
    assert_eq!(report[4], "mpims: 0");
    assert_eq!(w.message_id, u64::MAX);
}

#[test]
fn k_successive_pings() {
    let mut w = workspace();
    w.message_id = 98;
    let frames: Vec<String> = (0..5).map(|_| w.ping()).collect();
    for (i, frame) in frames.iter().enumerate() {
        assert_eq!(*frame, format!("{{\"id\": \"{}\", \"type\": \"ping\"}}", 98 + i));
    }
    assert_eq!(w.message_id, 103);
}

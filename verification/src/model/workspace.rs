use crate::api::conversations::ListResponse;
use crate::api::rtm::ConnectResponse;
use crate::model::{Channel, Group, Im, Me, Mpim, Team};
use crate::text::{code_value, decimal, lemma_decimal_canonical, push_decimal};
use vstd::prelude::*;

verus! {

/// One Slack workspace that the client is signed in to: its token, what
/// `rtm.connect` said of it, the conversations it lists, and the id that the
/// next message sent on its real-time socket carries.
pub struct Workspace {
    pub team: Option<Team>,
    pub me: Option<Me>,
    pub token: String,
    pub message_id: u64,
    pub channels: Vec<Channel>,
    pub groups: Vec<Group>,
    pub ims: Vec<Im>,
    pub mpims: Vec<Mpim>,
}

/// The text of the `ping` frame whose message id is `id`:
/// `{"id": "<id>", "type": "ping"}`.
pub open spec fn ping_frame(id: nat) -> Seq<char> {
    "{\"id\": \""@ + decimal(id) + "\", \"type\": \"ping\"}"@
}

/// What a ping step reports of a workspace, line by line: the team's name
/// and how many public channels, private channels, direct and multi-party
/// direct conversations it holds.
pub open spec fn ping_report(w: Workspace) -> Seq<Seq<char>> {
    seq![
        "TEAM: "@ + w.spec_team_name(),
        "public_channels: "@ + decimal(w.channels@.len()),
        "private_channels: "@ + decimal(w.groups@.len()),
        "ims: "@ + decimal(w.ims@.len()),
        "mpims: "@ + decimal(w.mpims@.len()),
    ]
}

/// The workspace as a ping leaves it: its message id moved on by one.
pub open spec fn ping_step(w: Workspace) -> Workspace {
    Workspace { message_id: (w.message_id + 1) as u64, ..w }
}

/// The frames that `k` successive pings of `w` send, in order.
pub open spec fn ping_frames(w: Workspace, k: nat) -> Seq<Seq<char>>
    decreases k,
{
    if k == 0 {
        Seq::<Seq<char>>::empty()
    } else {
        seq![ping_frame(w.message_id as nat)] + ping_frames(ping_step(w), (k - 1) as nat)
    }
}

/// The workspace as `k` successive pings of `w` leave it.
pub open spec fn after_pings(w: Workspace, k: nat) -> Workspace
    decreases k,
{
    if k == 0 {
        w
    } else {
        after_pings(ping_step(w), (k - 1) as nat)
    }
}

/// What one ping of a workspace gives out: the lines to report and the
/// frame to send on the real-time socket.
pub struct PingStep {
    pub report: Vec<String>,
    pub frame: String,
}

impl Workspace {
    /// The team's name, or the empty string while the team is unknown.
    pub open spec fn spec_team_name(&self) -> Seq<char> {
        match self.team {
            Some(team) => team.name@,
            None => Seq::<char>::empty(),
        }
    }

    /// The multi-party conversations of a workspace before any is listed.
    pub fn init_mpims() -> (mpims: Vec<Mpim>)
        ensures
            mpims@ == Seq::<Mpim>::empty(),
    {
        Vec::new()
    }

    /// The direct conversations of a workspace before any is listed.
    pub fn init_ims() -> (ims: Vec<Im>)
        ensures
            ims@ == Seq::<Im>::empty(),
    {
        Vec::new()
    }

    /// The private channels of a workspace before any is listed.
    pub fn init_groups() -> (groups: Vec<Group>)
        ensures
            groups@ == Seq::<Group>::empty(),
    {
        Vec::new()
    }

    /// The public channels of a workspace before any is listed.
    pub fn init_channels() -> (channels: Vec<Channel>)
        ensures
            channels@ == Seq::<Channel>::empty(),
    {
        Vec::new()
    }

    /// The id of the first message sent on a workspace's socket.
    pub fn init_message_id() -> (id: u64)
        ensures
            id == 0,
    {
        0
    }

    /// The team's name, or the empty string while the team is unknown.
    pub fn team_name(&self) -> (name: String)
        ensures
            name@ == self.spec_team_name(),
    {
        match &self.team {
            Some(team) => team.name.clone(),
            None => String::new(),
        }
    }

    /// Replaces the private channels.
    pub fn set_groups(&mut self, groups: Vec<Group>)
        ensures
            *final(self) == (Workspace { groups: groups, ..*old(self) }),
    {
        self.groups = groups
    }

    /// Replaces the public channels.
    pub fn set_channels(&mut self, channels: Vec<Channel>)
        ensures
            *final(self) == (Workspace { channels: channels, ..*old(self) }),
    {
        self.channels = channels;
    }

    /// Replaces the direct conversations.
    pub fn set_ims(&mut self, ims: Vec<Im>)
        ensures
            *final(self) == (Workspace { ims: ims, ..*old(self) }),
    {
        self.ims = ims;
    }

    /// Replaces the multi-party direct conversations.
    pub fn set_mpims(&mut self, mpims: Vec<Mpim>)
        ensures
            *final(self) == (Workspace { mpims: mpims, ..*old(self) }),
    {
        self.mpims = mpims;
    }

    /// Records the workspace's team.
    pub fn set_team(&mut self, team: Team)
        ensures
            *final(self) == (Workspace { team: Some(team), ..*old(self) }),
    {
        self.team = Some(team);
    }

    /// Records the user that the token belongs to.
    pub fn set_me(&mut self, me: Me)
        ensures
            *final(self) == (Workspace { me: Some(me), ..*old(self) }),
    {
        self.me = Some(me);
    }

    /// Takes the next message id: returns the current one and moves on to
    /// the one after it.
    pub fn message_id(&mut self) -> (id: u64)
        requires
            old(self).message_id < u64::MAX,
        ensures
            id == old(self).message_id,
            *final(self) == (Workspace { message_id: (id + 1) as u64, ..*old(self) }),
    {
        let v = self.message_id;
        self.message_id += 1;
        v
    }

    /// The `ping` frame to send next; it takes a fresh message id.
    pub fn ping(&mut self) -> (frame: String)
        requires
            old(self).message_id < u64::MAX,
        ensures
            frame@ == ping_frame(old(self).message_id as nat),
            *final(self) == ping_step(*old(self)),
    {
        let id = self.message_id();
        let mut frame = String::from_str("{\"id\": \"");
        push_decimal(&mut frame, id);
        frame.append("\", \"type\": \"ping\"}");
        frame
    }
}


/// The line `label` followed by the decimal writing of `n`.
fn count_line(label: &str, n: usize) -> (line: String)
    ensures
        line@ == label@ + decimal(n as nat),
{
    let mut line = String::from_str(label);
    push_decimal(&mut line, n as u64);
    line
}

impl Workspace {
    /// What a ping step reports of the workspace, line by line.
    pub fn report(&self) -> (report: Vec<String>)
        ensures
            report@.map_values(|line: String| line@) == ping_report(*self),
    {
        let mut report: Vec<String> = Vec::new();
        let mut team_line = String::from_str("TEAM: ");
        let name = self.team_name();
        team_line.append(name.as_str());
        report.push(team_line);
        report.push(count_line("public_channels: ", self.channels.len()));
        report.push(count_line("private_channels: ", self.groups.len()));
        report.push(count_line("ims: ", self.ims.len()));
        report.push(count_line("mpims: ", self.mpims.len()));
        assert(report@.map_values(|line: String| line@) =~= ping_report(*self));
        report
    }

    /// One ping of the workspace: what to report of it, and the `ping` frame
    /// to send, which takes a fresh message id.
    pub fn handle_ping(workspace: &mut Self) -> (step: PingStep)
        requires
            old(workspace).message_id < u64::MAX,
        ensures
            step.report@.map_values(|line: String| line@) == ping_report(*old(workspace)),
            step.frame@ == ping_frame(old(workspace).message_id as nat),
            *final(workspace) == ping_step(*old(workspace)),
    {
        let report = workspace.report();
        let frame = workspace.ping();
        PingStep { report, frame }
    }

    /// Takes in what `rtm.connect` answered: records the team and the user
    /// where the answer names them, and gives back the socket's address.
    pub fn apply_connect_response(&mut self, response: ConnectResponse) -> (url: Option<String>)
        ensures
            url == response.url,
            *final(self) == (Workspace {
                team: match response.team {
                    Some(team) => Some(team),
                    None => old(self).team,
                },
                me: match response.me {
                    Some(me) => Some(me),
                    None => old(self).me,
                },
                ..*old(self)
            }),
    {
        match response.team {
            Some(team) => self.set_team(team),
            None => {},
        }
        match response.me {
            Some(me) => self.set_me(me),
            None => {},
        }
        response.url
    }

    /// Takes in the four conversation lists that a `hello` asks for: the
    /// public and private channels and the direct and multi-party direct
    /// conversations replace those held so far.
    pub fn apply_conversation_lists(
        &mut self,
        public: ListResponse<Channel>,
        private: ListResponse<Group>,
        im: ListResponse<Im>,
        mpim: ListResponse<Mpim>,
    )
        ensures
            *final(self) == (Workspace {
                channels: public.channels,
                groups: private.channels,
                ims: im.channels,
                mpims: mpim.channels,
                ..*old(self)
            }),
    {
        self.set_channels(public.channels);
        self.set_groups(private.channels);
        self.set_ims(im.channels);
        self.set_mpims(mpim.channels);
    }
}

/// Pings with different message ids have different frames, so no two pings
/// that a workspace sends carry the same frame.
pub proof fn lemma_ping_frames_distinct(a: nat, b: nat)
    requires
        a != b,
    ensures
        ping_frame(a) != ping_frame(b),
{
    let head = "{\"id\": \""@;
    let tail = "\", \"type\": \"ping\"}"@;
    reveal_strlit("{\"id\": \"");
    reveal_strlit("\", \"type\": \"ping\"}");
    if ping_frame(a) == ping_frame(b) {
        let fa = ping_frame(a);
        let fb = ping_frame(b);
        assert(fa == head + decimal(a) + tail);
        assert(fb == head + decimal(b) + tail);
        assert(fa.len() == head.len() + decimal(a).len() + tail.len());
        assert(fb.len() == head.len() + decimal(b).len() + tail.len());
        assert(decimal(a).len() == decimal(b).len());
        assert(fa.subrange(head.len() as int, (head.len() + decimal(a).len()) as int) =~= decimal(a));
        assert(fb.subrange(head.len() as int, (head.len() + decimal(b).len()) as int) =~= decimal(b));
        crate::text::lemma_decimal_injective(a, b);
    }
}

/// Once a team is recorded (`set_team`), the team's name (`team_name`) is
/// that team's name.
pub proof fn lemma_team_name_after_set_team(w: Workspace, team: Team)
    ensures
        (Workspace { team: Some(team), ..w }).spec_team_name() == team.name@,
{
}

/// After an `rtm.connect` answer is taken in (`apply_connect_response`),
/// the team's name (`team_name`) is the name of the team the answer names,
/// and stays what it was when the answer names none.
pub proof fn lemma_team_name_after_connect(w: Workspace, response: ConnectResponse)
    ensures
        (Workspace {
            team: match response.team {
                Some(team) => Some(team),
                None => w.team,
            },
            me: match response.me {
                Some(me) => Some(me),
                None => w.me,
            },
            ..w
        }).spec_team_name() == match response.team {
            Some(team) => team.name@,
            None => w.spec_team_name(),
        },
{
}

/// After the conversation lists are taken in (`apply_conversation_lists`),
/// a ping step (`handle_ping`) reports the sizes of those lists.
pub proof fn lemma_report_after_lists(
    w: Workspace,
    public: ListResponse<Channel>,
    private: ListResponse<Group>,
    im: ListResponse<Im>,
    mpim: ListResponse<Mpim>,
)
    ensures
        ping_report(
            Workspace {
                channels: public.channels,
                groups: private.channels,
                ims: im.channels,
                mpims: mpim.channels,
                ..w
            },
        ).subrange(1, 5) == seq![
            "public_channels: "@ + decimal(public.channels@.len()),
            "private_channels: "@ + decimal(private.channels@.len()),
            "ims: "@ + decimal(im.channels@.len()),
            "mpims: "@ + decimal(mpim.channels@.len()),
        ],
{
    let w2 = Workspace {
        channels: public.channels,
        groups: private.channels,
        ims: im.channels,
        mpims: mpim.channels,
        ..w
    };
    assert(ping_report(w2).subrange(1, 5) =~= seq![
        "public_channels: "@ + decimal(public.channels@.len()),
        "private_channels: "@ + decimal(private.channels@.len()),
        "ims: "@ + decimal(im.channels@.len()),
        "mpims: "@ + decimal(mpim.channels@.len()),
    ]);
}

/// Two pings in a row (`ping`, then `ping` on the workspace it left) send
/// different frames: the second carries the next message id.
pub proof fn lemma_successive_pings_differ(w: Workspace)
    requires
        w.message_id < u64::MAX,
    ensures
        ping_frame(w.message_id as nat) != ping_frame(ping_step(w).message_id as nat),
{
    lemma_ping_frames_distinct(w.message_id as nat, (w.message_id + 1) as nat);
}

/// `k` successive pings of a workspace whose message id is `n` (`ping`,
/// each on the workspace the one before left) send the frames of ids
/// `n`, `n + 1`, ..., `n + k - 1` in that order, no two of them alike, and
/// leave the workspace with message id `n + k` and otherwise unchanged.
pub proof fn lemma_successive_pings(w: Workspace, k: nat)
    requires
        w.message_id + k <= u64::MAX,
    ensures
        ping_frames(w, k).len() == k,
        forall|i: int| 0 <= i < k ==> #[trigger] ping_frames(w, k)[i] == ping_frame((w.message_id + i) as nat),
        forall|i: int, j: int|
            0 <= i < j < k ==> #[trigger] ping_frames(w, k)[i] != #[trigger] ping_frames(w, k)[j],
        after_pings(w, k) == (Workspace { message_id: (w.message_id + k) as u64, ..w }),
    decreases k,
{
    if k > 0 {
        let w1 = ping_step(w);
        lemma_successive_pings(w1, (k - 1) as nat);
        let rest = ping_frames(w1, (k - 1) as nat);
        let all = ping_frames(w, k);
        assert(all == seq![ping_frame(w.message_id as nat)] + rest);
        assert forall|i: int| 0 <= i < k implies #[trigger] all[i] == ping_frame((w.message_id + i) as nat) by {
            if i > 0 {
                assert(all[i] == rest[i - 1]);
            }
        }
        assert forall|i: int, j: int| 0 <= i < j < k implies #[trigger] all[i] != #[trigger] all[j] by {
            assert(all[i] == ping_frame((w.message_id + i) as nat));
            assert(all[j] == ping_frame((w.message_id + j) as nat));
            lemma_ping_frames_distinct((w.message_id + i) as nat, (w.message_id + j) as nat);
        }
    }
}

/// Every ping frame is `{"id": "`, then the message id written in decimal
/// digits (no leading zero) that read back as the id, then
/// `", "type": "ping"}`: the frame's type is always `ping` and it carries
/// exactly the id it was made for.
pub proof fn lemma_ping_frame_reads_back(id: nat)
    ensures
        ping_frame(id).len() >= 27,
        ping_frame(id).subrange(0, 8) == "{\"id\": \""@,
        ping_frame(id).subrange(ping_frame(id).len() - 18, ping_frame(id).len() as int)
            == "\", \"type\": \"ping\"}"@,
        forall|i: int|
            8 <= i < ping_frame(id).len() - 18 ==> 48 <= #[trigger] ping_frame(id)[i] as int <= 57,
        ping_frame(id).len() > 27 ==> ping_frame(id)[8] != '0',
        code_value(ping_frame(id).subrange(8, ping_frame(id).len() - 18)) == id,
{
    let head = "{\"id\": \""@;
    let tail = "\", \"type\": \"ping\"}"@;
    reveal_strlit("{\"id\": \"");
    reveal_strlit("\", \"type\": \"ping\"}");
    lemma_decimal_canonical(id);
    let d = decimal(id);
    let f = ping_frame(id);
    assert(head.len() == 8);
    assert(tail.len() == 18);
    assert(f == head + d + tail);
    assert(f.subrange(0, 8) =~= head);
    assert(f.subrange(f.len() - 18, f.len() as int) =~= tail);
    assert(f.subrange(8, f.len() - 18) =~= d);
    assert forall|i: int| 8 <= i < f.len() - 18 implies 48 <= #[trigger] f[i] as int <= 57 by {
        assert(f[i] == d[i - 8]);
    }
    assert(f[8] == d[0]);
}

/// The report's first line is `TEAM: ` followed by the name of the team the
/// workspace belongs to (nothing while the team is unknown); the next four
/// give, in decimal, how many public channels, private channels, direct and
/// multi-party direct conversations it holds.
pub proof fn lemma_report_lines(w: Workspace)
    ensures
        ping_report(w).len() == 5,
        ping_report(w)[0] == "TEAM: "@ + match w.team {
            Some(team) => team.name@,
            None => Seq::<char>::empty(),
        },
        ping_report(w)[1] == "public_channels: "@ + decimal(w.channels@.len()),
        ping_report(w)[2] == "private_channels: "@ + decimal(w.groups@.len()),
        ping_report(w)[3] == "ims: "@ + decimal(w.ims@.len()),
        ping_report(w)[4] == "mpims: "@ + decimal(w.mpims@.len()),
{
}

/// The report speaks of the team, not of the signed-in user: whoever the
/// token belongs to, and whatever the token and message id, the report is
/// the same.
pub proof fn lemma_report_ignores_user(w: Workspace, me: Option<Me>, token: String, message_id: u64)
    ensures
        ping_report(Workspace { me: me, token: token, message_id: message_id, ..w })
            == ping_report(w),
{
}

} // verus!

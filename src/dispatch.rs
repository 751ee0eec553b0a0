//! Delivering a newsletter: the decisions of the dispatch handler, as a
//! machine that takes the outcome of each outside step and names the next.
use vstd::prelude::*;
use vstd::string::*;

use crate::reply::{Reply, ReplyView, STATUS_FORBIDDEN, STATUS_INTERNAL_ERROR, STATUS_OK, STATUS_UNAUTHORIZED};
use crate::request::SendNewsletterRequest;
use crate::text::{contains_text, decimal, decimal_string, has_run};

verus! {

/// The fixed document text that comes before wrapped content.
pub const TEMPLATE_HEAD: &'static str = "<!DOCTYPE html>\n                    <html>\n                    <head>\n                        <meta charset=\"utf-8\">\n                        <style>\n                            body { font-family: sans-serif; line-height: 1.6; color: #333; }\n                            .container { max-width: 600px; margin: 0 auto; padding: 20px; }\n                            .footer { font-size: 12px; color: #777; margin-top: 30px; border-top: 1px solid #eee; padding-top: 10px; }\n                        </style>\n                    </head>\n                    <body>\n                        <div class=\"container\">\n                            ";

/// The fixed document text, with the footer, that comes after wrapped content.
pub const TEMPLATE_TAIL: &'static str = "\n                            <div class=\"footer\">\n                                <p>You are receiving this email because you subscribed to Nguyen Restaurant updates.</p>\n                                <p>Georgenstraße 67, 80799 München</p>\n                            </div>\n                        </div>\n                    </body>\n                    </html>";

/// The opening of an HTML document element.
pub open spec fn html_marker() -> Seq<char> {
    "<html"@
}

/// `content` placed inside the fixed HTML document.
pub open spec fn wrapped(content: Seq<char>) -> Seq<char> {
    TEMPLATE_HEAD@ + content + TEMPLATE_TAIL@
}

/// The body that each recipient is sent: HTML content that is not a whole
/// document yet is wrapped; a whole document and plain text go as they are.
pub open spec fn formatted_body(content: Seq<char>, is_html: bool) -> Seq<char> {
    if is_html && !has_run(content, html_marker()) {
        wrapped(content)
    } else {
        content
    }
}

/// Prepares the body that every recipient is sent.
pub fn format_body(content: &str, is_html: bool) -> (r: String)
    ensures
        r@ == formatted_body(content@, is_html),
{
    proof {
        reveal_strlit("<html");
    }
    if is_html && !contains_text(content, "<html") {
        let mut r = String::from_str(TEMPLATE_HEAD);
        r.append(content);
        r.append(TEMPLATE_TAIL);
        r
    } else {
        String::from_str(content)
    }
}

/// Where a dispatch stands.
#[derive(Clone, Copy, Debug, PartialEq, Eq, Structural)]
pub enum Stage {
    /// Waiting for the identity that the caller's credential carries.
    Authenticating,
    /// Waiting for the privilege check of that identity.
    Authorizing,
    /// Waiting for the subscriber list.
    Fetching,
    /// Waiting for the outcome of the send to the current recipient.
    Sending,
    /// A reply has been given; nothing more happens.
    Finished,
}

/// One newsletter delivery in progress.
pub struct Dispatch {
    subject: String,
    content: String,
    is_html: bool,
    body: String,
    stage: Stage,
    recipients: Vec<String>,
    next: usize,
    success_count: usize,
    fail_count: usize,
}

/// A delivery in progress, as plain values.
pub ghost struct DispatchView {
    pub subject: Seq<char>,
    pub content: Seq<char>,
    pub is_html: bool,
    pub stage: Stage,
    pub recipients: Seq<Seq<char>>,
    /// The position of the recipient whose send is outstanding.
    pub next: nat,
    pub success_count: nat,
    pub fail_count: nat,
}

/// The texts that a list of strings holds.
pub open spec fn texts(v: Seq<String>) -> Seq<Seq<char>> {
    v.map_values(|s: String| s@)
}

impl View for Dispatch {
    type V = DispatchView;

    closed spec fn view(&self) -> DispatchView {
        DispatchView {
            subject: self.subject@,
            content: self.content@,
            is_html: self.is_html,
            stage: self.stage,
            recipients: texts(self.recipients@),
            next: self.next as nat,
            success_count: self.success_count as nat,
            fail_count: self.fail_count as nat,
        }
    }
}

/// What the outside world reports back to a dispatch.
pub enum Event {
    /// The email claim of the caller's verified credential; `None` where the
    /// credential is missing or fails verification.
    Identity(Option<String>),
    /// Whether the user store holds that identity with the administrator role.
    Role(bool),
    /// The subscriber addresses; `None` where the store could not be read.
    Subscribers(Option<Vec<String>>),
    /// Whether the send to the current recipient succeeded.
    Delivery(bool),
}

/// An event as plain values.
pub ghost enum EventView {
    Identity(Option<Seq<char>>),
    Role(bool),
    Subscribers(Option<Seq<Seq<char>>>),
    Delivery(bool),
}

impl View for Event {
    type V = EventView;

    open spec fn view(&self) -> EventView {
        match self {
            Event::Identity(id) => EventView::Identity(
                match id {
                    Some(e) => Some(e@),
                    None => None,
                },
            ),
            Event::Role(admin) => EventView::Role(*admin),
            Event::Subscribers(list) => EventView::Subscribers(
                match list {
                    Some(rs) => Some(texts(rs@)),
                    None => None,
                },
            ),
            Event::Delivery(ok) => EventView::Delivery(*ok),
        }
    }
}

/// What a dispatch asks the outside world to do next.
pub enum Action {
    /// Look up whether this address belongs to an administrator.
    CheckAdmin(String),
    /// Read the full subscriber list.
    FetchSubscribers,
    /// Send one message, through the HTML primitive where `html` holds and
    /// through the plain-text one otherwise.
    Send { to: String, subject: String, body: String, html: bool },
    /// Answer the request; the dispatch is over.
    Respond(Reply),
    /// The event did not fit the stage; nothing to do.
    Idle,
}

/// An action as plain values.
pub ghost enum ActionView {
    CheckAdmin(Seq<char>),
    FetchSubscribers,
    Send { to: Seq<char>, subject: Seq<char>, body: Seq<char>, html: bool },
    Respond(ReplyView),
    Idle,
}

impl View for Action {
    type V = ActionView;

    open spec fn view(&self) -> ActionView {
        match self {
            Action::CheckAdmin(e) => ActionView::CheckAdmin(e@),
            Action::FetchSubscribers => ActionView::FetchSubscribers,
            Action::Send { to, subject, body, html } => ActionView::Send {
                to: to@,
                subject: subject@,
                body: body@,
                html: *html,
            },
            Action::Respond(reply) => ActionView::Respond(reply@),
            Action::Idle => ActionView::Idle,
        }
    }
}

/// The reply with this status and message.
pub open spec fn respond(status: u16, message: Seq<char>) -> ActionView {
    ActionView::Respond(ReplyView { status, message })
}

/// The closing message of a completed delivery.
pub open spec fn summary(success: nat, failed: nat) -> Seq<char> {
    "Newsletter sent. Success: "@ + decimal(success) + ", Failed: "@ + decimal(failed)
}

/// The send to the recipient at position `i`.
pub open spec fn send_to(d: DispatchView, i: int) -> ActionView {
    ActionView::Send {
        to: d.recipients[i],
        subject: d.subject,
        body: formatted_body(d.content, d.is_html),
        html: d.is_html,
    }
}

/// A delivery of this request that has not started.
pub open spec fn initial(subject: Seq<char>, content: Seq<char>, is_html: bool) -> DispatchView {
    DispatchView {
        subject,
        content,
        is_html,
        stage: Stage::Authenticating,
        recipients: seq![],
        next: 0,
        success_count: 0,
        fail_count: 0,
    }
}

/// `d` moved to another stage.
pub open spec fn at_stage(d: DispatchView, stage: Stage) -> DispatchView {
    DispatchView { stage, ..d }
}

/// The next state and action after `e`. Each stage takes one kind of event;
/// any other leaves the state as it is and asks for nothing.
pub open spec fn step_spec(d: DispatchView, e: EventView) -> (DispatchView, ActionView) {
    match e {
        EventView::Identity(id) => if d.stage == Stage::Authenticating {
            match id {
                Some(email) => (at_stage(d, Stage::Authorizing), ActionView::CheckAdmin(email)),
                None => (at_stage(d, Stage::Finished), respond(STATUS_UNAUTHORIZED, "Unauthorized"@)),
            }
        } else {
            (d, ActionView::Idle)
        },
        EventView::Role(admin) => if d.stage == Stage::Authorizing {
            if admin {
                (at_stage(d, Stage::Fetching), ActionView::FetchSubscribers)
            } else {
                (at_stage(d, Stage::Finished), respond(STATUS_FORBIDDEN, "Forbidden"@))
            }
        } else {
            (d, ActionView::Idle)
        },
        EventView::Subscribers(list) => if d.stage == Stage::Fetching {
            match list {
                None => (
                    at_stage(d, Stage::Finished),
                    respond(STATUS_INTERNAL_ERROR, "Failed to fetch subscribers"@),
                ),
                Some(rs) => if rs.len() == 0 {
                    (at_stage(d, Stage::Finished), respond(STATUS_OK, "No subscribers found"@))
                } else {
                    let d2 = DispatchView {
                        stage: Stage::Sending,
                        recipients: rs,
                        next: 0,
                        success_count: 0,
                        fail_count: 0,
                        ..d
                    };
                    (d2, send_to(d2, 0))
                },
            }
        } else {
            (d, ActionView::Idle)
        },
        EventView::Delivery(ok) => if d.stage == Stage::Sending {
            let d2 = DispatchView {
                next: d.next + 1,
                success_count: if ok { d.success_count + 1 } else { d.success_count },
                fail_count: if ok { d.fail_count } else { d.fail_count + 1 },
                ..d
            };
            if d2.next < d.recipients.len() {
                (d2, send_to(d2, d2.next as int))
            } else {
                (
                    at_stage(d2, Stage::Finished),
                    respond(STATUS_OK, summary(d2.success_count, d2.fail_count)),
                )
            }
        } else {
            (d, ActionView::Idle)
        },
    }
}

impl Dispatch {
    /// The internal consistency of a delivery: the prepared body matches the
    /// request, and while sending, the outstanding recipient exists and every
    /// earlier one is counted exactly once.
    pub closed spec fn wf(&self) -> bool {
        &&& self.body@ == formatted_body(self.content@, self.is_html)
        &&& self.stage == Stage::Sending ==> {
            &&& self.next < self.recipients@.len()
            &&& self.success_count + self.fail_count == self.next
        }
    }

    /// Starts the delivery of `req`.
    pub fn new(req: SendNewsletterRequest) -> (d: Dispatch)
        ensures
            d.wf(),
            d@ == initial(req.subject@, req.content@, req.is_html),
    {
        let body = format_body(req.content.as_str(), req.is_html);
        let d = Dispatch {
            subject: req.subject,
            content: req.content,
            is_html: req.is_html,
            body,
            stage: Stage::Authenticating,
            recipients: Vec::new(),
            next: 0,
            success_count: 0,
            fail_count: 0,
        };
        assert(d@.recipients =~= Seq::<Seq<char>>::empty());
        d
    }

    /// Where the delivery stands.
    pub fn stage(&self) -> (r: Stage)
        ensures
            r == self@.stage,
    {
        self.stage
    }

    fn send_action(&self) -> (r: Action)
        requires
            self.wf(),
            self.next < self.recipients@.len(),
        ensures
            r@ == send_to(self@, self.next as int),
    {
        Action::Send {
            to: self.recipients[self.next].clone(),
            subject: self.subject.clone(),
            body: self.body.clone(),
            html: self.is_html,
        }
    }

    fn summary_reply(&self) -> (r: Reply)
        ensures
            r@ == (ReplyView {
                status: STATUS_OK,
                message: summary(self.success_count as nat, self.fail_count as nat),
            }),
    {
        let mut message = String::from_str("Newsletter sent. Success: ");
        let s = decimal_string(self.success_count as u64);
        message.append(s.as_str());
        message.append(", Failed: ");
        let f = decimal_string(self.fail_count as u64);
        message.append(f.as_str());
        Reply::new(STATUS_OK, message.as_str())
    }

    /// Takes the outcome of the last action and gives the next one.
    pub fn step(&mut self, event: Event) -> (r: Action)
        requires
            old(self).wf(),
        ensures
            final(self).wf(),
            (final(self)@, r@) == step_spec(old(self)@, event@),
    {
        match event {
            Event::Identity(id) => {
                match self.stage {
                    Stage::Authenticating => {},
                    _ => return Action::Idle,
                }
                match id {
                    Some(email) => {
                        self.stage = Stage::Authorizing;
                        Action::CheckAdmin(email)
                    },
                    None => {
                        self.stage = Stage::Finished;
                        Action::Respond(Reply::new(STATUS_UNAUTHORIZED, "Unauthorized"))
                    },
                }
            },
            Event::Role(admin) => {
                match self.stage {
                    Stage::Authorizing => {},
                    _ => return Action::Idle,
                }
                if admin {
                    self.stage = Stage::Fetching;
                    Action::FetchSubscribers
                } else {
                    self.stage = Stage::Finished;
                    Action::Respond(Reply::new(STATUS_FORBIDDEN, "Forbidden"))
                }
            },
            Event::Subscribers(list) => {
                match self.stage {
                    Stage::Fetching => {},
                    _ => return Action::Idle,
                }
                match list {
                    None => {
                        self.stage = Stage::Finished;
                        Action::Respond(
                            Reply::new(STATUS_INTERNAL_ERROR, "Failed to fetch subscribers"),
                        )
                    },
                    Some(rs) => {
                        if rs.len() == 0 {
                            self.stage = Stage::Finished;
                            Action::Respond(Reply::new(STATUS_OK, "No subscribers found"))
                        } else {
                            self.stage = Stage::Sending;
                            self.recipients = rs;
                            self.next = 0;
                            self.success_count = 0;
                            self.fail_count = 0;
                            self.send_action()
                        }
                    },
                }
            },
            Event::Delivery(ok) => {
                match self.stage {
                    Stage::Sending => {},
                    _ => return Action::Idle,
                }
                let n = self.recipients.len();
                assert(self.success_count + self.fail_count < n);
                if ok {
                    self.success_count = self.success_count + 1;
                } else {
                    self.fail_count = self.fail_count + 1;
                }
                self.next = self.next + 1;
                if self.next < self.recipients.len() {
                    self.send_action()
                } else {
                    self.stage = Stage::Finished;
                    Action::Respond(self.summary_reply())
                }
            },
        }
    }
}

/// The actions that a delivery in state `d` gives for `events`, in order.
pub open spec fn run(d: DispatchView, events: Seq<EventView>) -> Seq<ActionView>
    decreases events.len(),
{
    if events.len() == 0 {
        seq![]
    } else {
        let next = step_spec(d, events[0]);
        seq![next.1] + run(next.0, events.drop_first())
    }
}

/// `n` actions that ask for nothing.
pub open spec fn idles(n: nat) -> Seq<ActionView> {
    Seq::new(n, |i: int| ActionView::Idle)
}

/// The reports of a run of sends, in order.
pub open spec fn deliveries(outcomes: Seq<bool>) -> Seq<EventView> {
    outcomes.map_values(|ok: bool| EventView::Delivery(ok))
}

/// How many of the sends succeeded.
pub open spec fn successes(outcomes: Seq<bool>) -> nat
    decreases outcomes.len(),
{
    if outcomes.len() == 0 {
        0
    } else {
        (if outcomes[0] { 1nat } else { 0nat }) + successes(outcomes.drop_first())
    }
}

/// How many of the sends failed.
pub open spec fn failures(outcomes: Seq<bool>) -> nat
    decreases outcomes.len(),
{
    if outcomes.len() == 0 {
        0
    } else {
        (if outcomes[0] { 0nat } else { 1nat }) + failures(outcomes.drop_first())
    }
}

/// One send of the request's subject and formatted body to each of `rs`, in order.
pub open spec fn sends(subject: Seq<char>, content: Seq<char>, is_html: bool, rs: Seq<Seq<char>>) -> Seq<ActionView> {
    Seq::new(
        rs.len(),
        |i: int|
            ActionView::Send {
                to: rs[i],
                subject,
                body: formatted_body(content, is_html),
                html: is_html,
            },
    )
}

proof fn finished_stays_idle(d: DispatchView, events: Seq<EventView>)
    requires
        d.stage == Stage::Finished,
    ensures
        run(d, events) == idles(events.len()),
    decreases events.len(),
{
    if events.len() > 0 {
        finished_stays_idle(d, events.drop_first());
    }
    assert(run(d, events) =~= idles(events.len()));
}

proof fn first_step(d: DispatchView, e: EventView, later: Seq<EventView>)
    ensures
        run(d, seq![e] + later) == seq![step_spec(d, e).1] + run(step_spec(d, e).0, later),
{
    let es = seq![e] + later;
    assert(es[0] == e);
    assert(es.drop_first() =~= later);
}

proof fn sending_runs_to_summary(d: DispatchView, outcomes: Seq<bool>)
    requires
        d.stage == Stage::Sending,
        d.next < d.recipients.len(),
        outcomes.len() == d.recipients.len() - d.next,
    ensures
        run(d, deliveries(outcomes)) == Seq::new(
            (outcomes.len() - 1) as nat,
            |i: int| send_to(d, d.next + 1 + i),
        ) + seq![
            respond(
                STATUS_OK,
                summary(d.success_count + successes(outcomes), d.fail_count + failures(outcomes)),
            ),
        ],
    decreases outcomes.len(),
{
    let ok = outcomes[0];
    let rest = outcomes.drop_first();
    assert(deliveries(outcomes) =~= seq![EventView::Delivery(ok)] + deliveries(rest));
    first_step(d, EventView::Delivery(ok), deliveries(rest));
    let d2 = step_spec(d, EventView::Delivery(ok)).0;
    if d.next + 1 < d.recipients.len() {
        sending_runs_to_summary(d2, rest);
        assert(run(d, deliveries(outcomes)) =~= Seq::new(
            (outcomes.len() - 1) as nat,
            |i: int| send_to(d, d.next + 1 + i),
        ) + seq![
            respond(
                STATUS_OK,
                summary(d.success_count + successes(outcomes), d.fail_count + failures(outcomes)),
            ),
        ]);
    } else {
        assert(rest.len() == 0);
        assert(deliveries(rest) =~= Seq::<EventView>::empty());
        assert(run(d, deliveries(outcomes)) =~= Seq::new(
            (outcomes.len() - 1) as nat,
            |i: int| send_to(d, d.next + 1 + i),
        ) + seq![
            respond(
                STATUS_OK,
                summary(d.success_count + successes(outcomes), d.fail_count + failures(outcomes)),
            ),
        ]);
    }
}

/// A request whose credential yields no identity is answered 401 at once;
/// whatever is reported afterwards, the subscriber list is never read and
/// nothing is sent.
pub proof fn missing_identity_is_unauthorized(
    subject: Seq<char>,
    content: Seq<char>,
    is_html: bool,
    later: Seq<EventView>,
)
    ensures
        run(initial(subject, content, is_html), seq![EventView::Identity(None)] + later)
            == seq![respond(STATUS_UNAUTHORIZED, "Unauthorized"@)] + idles(later.len()),
{
    let d = initial(subject, content, is_html);
    first_step(d, EventView::Identity(None), later);
    finished_stays_idle(step_spec(d, EventView::Identity(None)).0, later);
}

/// A verified identity without the administrator role is answered 403 after
/// the role check; the subscriber list is never read and nothing is sent.
pub proof fn non_admin_is_forbidden(
    subject: Seq<char>,
    content: Seq<char>,
    is_html: bool,
    email: Seq<char>,
    later: Seq<EventView>,
)
    ensures
        run(
            initial(subject, content, is_html),
            seq![EventView::Identity(Some(email)), EventView::Role(false)] + later,
        ) == seq![ActionView::CheckAdmin(email), respond(STATUS_FORBIDDEN, "Forbidden"@)]
            + idles(later.len()),
{
    let d0 = initial(subject, content, is_html);
    let e0 = EventView::Identity(Some(email));
    let e1 = EventView::Role(false);
    assert(seq![e0, e1] + later =~= seq![e0] + (seq![e1] + later));
    first_step(d0, e0, seq![e1] + later);
    let d1 = step_spec(d0, e0).0;
    first_step(d1, e1, later);
    finished_stays_idle(step_spec(d1, e1).0, later);
    assert(run(d0, seq![e0, e1] + later) =~= seq![
        ActionView::CheckAdmin(email),
        respond(STATUS_FORBIDDEN, "Forbidden"@),
    ] + idles(later.len()));
}

/// An administrator's request with no subscribers is answered 200 with
/// "No subscribers found", and nothing is sent.
pub proof fn no_subscribers_sends_nothing(
    subject: Seq<char>,
    content: Seq<char>,
    is_html: bool,
    email: Seq<char>,
    later: Seq<EventView>,
)
    ensures
        run(
            initial(subject, content, is_html),
            seq![
                EventView::Identity(Some(email)),
                EventView::Role(true),
                EventView::Subscribers(Some(seq![])),
            ] + later,
        ) == seq![
            ActionView::CheckAdmin(email),
            ActionView::FetchSubscribers,
            respond(STATUS_OK, "No subscribers found"@),
        ] + idles(later.len()),
{
    let d0 = initial(subject, content, is_html);
    let e0 = EventView::Identity(Some(email));
    let e1 = EventView::Role(true);
    let e2 = EventView::Subscribers(Some(seq![]));
    assert(seq![e0, e1, e2] + later =~= seq![e0] + (seq![e1] + (seq![e2] + later)));
    first_step(d0, e0, seq![e1] + (seq![e2] + later));
    let d1 = step_spec(d0, e0).0;
    first_step(d1, e1, seq![e2] + later);
    let d2 = step_spec(d1, e1).0;
    first_step(d2, e2, later);
    finished_stays_idle(step_spec(d2, e2).0, later);
    assert(run(d0, seq![e0, e1, e2] + later) =~= seq![
        ActionView::CheckAdmin(email),
        ActionView::FetchSubscribers,
        respond(STATUS_OK, "No subscribers found"@),
    ] + idles(later.len()));
}

/// An administrator's request with subscribers sends to every one of them, in
/// order, whatever each send reports: a failure never cuts the run short. The
/// closing 200 reply counts the successes and the failures, which together
/// make up the number of subscribers.
pub proof fn every_subscriber_is_attempted(
    subject: Seq<char>,
    content: Seq<char>,
    is_html: bool,
    email: Seq<char>,
    rs: Seq<Seq<char>>,
    outcomes: Seq<bool>,
)
    requires
        rs.len() > 0,
        outcomes.len() == rs.len(),
    ensures
        run(
            initial(subject, content, is_html),
            seq![
                EventView::Identity(Some(email)),
                EventView::Role(true),
                EventView::Subscribers(Some(rs)),
            ] + deliveries(outcomes),
        ) == seq![ActionView::CheckAdmin(email), ActionView::FetchSubscribers]
            + sends(subject, content, is_html, rs)
            + seq![respond(STATUS_OK, summary(successes(outcomes), failures(outcomes)))],
        successes(outcomes) + failures(outcomes) == rs.len(),
{
    let d0 = initial(subject, content, is_html);
    let e0 = EventView::Identity(Some(email));
    let e1 = EventView::Role(true);
    let e2 = EventView::Subscribers(Some(rs));
    let later = deliveries(outcomes);
    assert(seq![e0, e1, e2] + later =~= seq![e0] + (seq![e1] + (seq![e2] + later)));
    first_step(d0, e0, seq![e1] + (seq![e2] + later));
    let d1 = step_spec(d0, e0).0;
    first_step(d1, e1, seq![e2] + later);
    let d2 = step_spec(d1, e1).0;
    first_step(d2, e2, later);
    let d3 = step_spec(d2, e2).0;
    sending_runs_to_summary(d3, outcomes);
    assert(run(d0, seq![e0, e1, e2] + later) =~= seq![
        ActionView::CheckAdmin(email),
        ActionView::FetchSubscribers,
    ] + sends(subject, content, is_html, rs) + seq![
        respond(STATUS_OK, summary(successes(outcomes), failures(outcomes))),
    ]);
    outcomes_are_counted(outcomes);
}

proof fn outcomes_are_counted(outcomes: Seq<bool>)
    ensures
        successes(outcomes) + failures(outcomes) == outcomes.len(),
    decreases outcomes.len(),
{
    if outcomes.len() > 0 {
        outcomes_are_counted(outcomes.drop_first());
    }
}

/// Plain text is sent exactly as given. HTML content that is not yet a whole
/// document is placed inside the fixed template; a whole document goes as it
/// is. So formatting a formatted HTML body changes nothing.
pub proof fn body_formatting(content: Seq<char>)
    ensures
        formatted_body(content, false) == content,
        has_run(content, html_marker()) ==> formatted_body(content, true) == content,
        !has_run(content, html_marker()) ==> formatted_body(content, true)
            == TEMPLATE_HEAD@ + content + TEMPLATE_TAIL@,
        formatted_body(formatted_body(content, true), true) == formatted_body(content, true),
{
    if !has_run(content, html_marker()) {
        let w = wrapped(content);
        reveal_strlit("<html");
        reveal_strlit("<!DOCTYPE html>\n                    <html>\n                    <head>\n                        <meta charset=\"utf-8\">\n                        <style>\n                            body { font-family: sans-serif; line-height: 1.6; color: #333; }\n                            .container { max-width: 600px; margin: 0 auto; padding: 20px; }\n                            .footer { font-size: 12px; color: #777; margin-top: 30px; border-top: 1px solid #eee; padding-top: 10px; }\n                        </style>\n                    </head>\n                    <body>\n                        <div class=\"container\">\n                            ");
        assert(TEMPLATE_HEAD@.len() > 41);
        assert(TEMPLATE_HEAD@.subrange(36, 41) =~= html_marker());
        assert forall|i: int| 0 <= i < TEMPLATE_HEAD@.len() implies w[i] == TEMPLATE_HEAD@[i] by {
            assert((TEMPLATE_HEAD@ + content)[i] == TEMPLATE_HEAD@[i]);
        }
        assert(w.subrange(36, 41) =~= TEMPLATE_HEAD@.subrange(36, 41));
        assert(w.subrange(36, 36 + html_marker().len() as int) == html_marker());
    }
}

} // verus!

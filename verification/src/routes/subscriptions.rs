use vstd::prelude::*;
use crate::text::push_char;
use crate::draws::{
    clock_micros, draw_uuid, is_alphanumeric_byte, is_random_uuid, sample_alphanumeric, seeded_rng,
};
use crate::domain::{
    NewSubscriber, SubscriberEmail, SubscriberName, is_valid_subscriber_name, accepted_email,
    name_error_message, email_error_message, is_short_valid_name,
};

verus! {

/// The fields of a subscription form, as the request body carries them.
pub struct FormData {
    pub email: String,
    pub name: String,
}

/// What converting a form gives: the subscriber when both fields pass,
/// else the message of the first field that fails, the name's first.
pub open spec fn form_outcome(email: Seq<char>, name: Seq<char>) -> Result<(Seq<char>, Seq<char>), Seq<char>> {
    if !is_valid_subscriber_name(name) {
        Err(name_error_message(name))
    } else if !accepted_email(email) {
        Err(email_error_message(email))
    } else {
        Ok((email, name))
    }
}

impl TryFrom<FormData> for NewSubscriber {
    type Error = String;

    fn try_from(value: FormData) -> (res: Result<Self, Self::Error>)
        ensures
            res is Ok <==> form_outcome(value.email@, value.name@) is Ok,
            is_short_valid_name(value.name@) && accepted_email(value.email@) ==> res is Ok,
            res matches Ok(s) ==> form_outcome(value.email@, value.name@) == Ok::<(Seq<char>, Seq<char>), Seq<char>>((s.email@, s.name@)),
            res matches Err(e) ==> form_outcome(value.email@, value.name@) == Err::<(Seq<char>, Seq<char>), Seq<char>>(e@),
    {
        let name = match SubscriberName::parse(value.name) {
            Ok(name) => name,
            Err(e) => return Err(e),
        };
        let email = match SubscriberEmail::parse(value.email) {
            Ok(email) => email,
            Err(e) => return Err(e),
        };
        Ok(Self { email, name })
    }
}

/// The conversion is stated by the `ensures` of `try_from` above, over the
/// views of the strings: an error message is a fresh `String`, which no spec
/// value names, so no `try_from_spec` is offered for callers to rely on.
impl vstd::std_specs::convert::TryFromSpecImpl<FormData> for NewSubscriber {
    open spec fn obeys_try_from_spec() -> bool {
        false
    }

    open spec fn try_from_spec(v: FormData) -> Result<Self, String> {
        arbitrary()
    }
}

/// The characters a subscription token is drawn from: ASCII letters of
/// either case and ASCII digits.
pub open spec fn is_token_char(c: char) -> bool {
    ('A' <= c && c <= 'Z') || ('a' <= c && c <= 'z') || ('0' <= c && c <= '9')
}

/// How many characters a subscription token has.
pub const SUBSCRIPTION_TOKEN_LEN: usize = 25;

/// A subscription token: 25 characters, each an ASCII letter or digit.
pub open spec fn is_subscription_token(t: Seq<char>) -> bool {
    &&& t.len() == SUBSCRIPTION_TOKEN_LEN
    &&& forall|i: int| 0 <= i < t.len() ==> is_token_char(#[trigger] t[i])
}

/// The token whose characters are `samples`, one for each byte, in order.
pub fn token_from_samples(samples: &Vec<u8>) -> (token: String)
    ensures
        token@ == samples@.map_values(|b: u8| b as char),
{
    let mut token = String::new();
    let mut i: usize = 0;
    while i < samples.len()
        invariant
            i <= samples.len(),
            token@ == samples@.take(i as int).map_values(|b: u8| b as char),
        decreases samples.len() - i,
    {
        push_char(&mut token, samples[i] as char);
        proof {
            assert(samples@.take(i + 1) =~= samples@.take(i as int).push(samples@[i as int]));
        }
        i = i + 1;
    }
    assert(samples@.take(samples.len() as int) =~= samples@);
    token
}

/// Generate a random 25-characters-long case-sensitive subscription token:
/// 25 samples of rand's `Alphanumeric` distribution, from a generator seeded
/// by the operating system. `None` when the operating system gives no seed.
pub fn generate_subscription_token() -> (token: Option<String>)
    ensures
        token matches Some(t) ==> is_subscription_token(t@),
{
    let mut rng = match seeded_rng() {
        Some(rng) => rng,
        None => return None,
    };
    let mut samples: Vec<u8> = Vec::new();
    while samples.len() < SUBSCRIPTION_TOKEN_LEN
        invariant
            samples.len() <= SUBSCRIPTION_TOKEN_LEN,
            forall|j: int| 0 <= j < samples.len() ==> is_alphanumeric_byte(#[trigger] samples@[j]),
        decreases SUBSCRIPTION_TOKEN_LEN - samples.len(),
    {
        let b = sample_alphanumeric(&mut rng);
        samples.push(b);
    }
    let token = token_from_samples(&samples);
    assert forall|j: int| 0 <= j < token@.len() implies is_token_char(#[trigger] token@[j]) by {
        assert(is_alphanumeric_byte(samples@[j]));
    }
    Some(token)
}

/// The link a new subscriber follows to confirm: the confirm endpoint under
/// `base_url`, with the token as query parameter.
pub open spec fn confirmation_link_spec(base_url: Seq<char>, subscription_token: Seq<char>) -> Seq<char> {
    base_url + "/subscriptions/confirm?subscription_token="@ + subscription_token
}

/// The plain-text body of the confirmation email for `link`.
pub open spec fn plain_body_spec(link: Seq<char>) -> Seq<char> {
    "Welcome to our newsletter!\nVisit "@ + link + " to confirm your subscription."@
}

/// The HTML body of the confirmation email for `link`.
pub open spec fn html_body_spec(link: Seq<char>) -> Seq<char> {
    "Welcome to our newsletter!<br />Click <a href=\""@ + link
        + "\">here</a> to confirm your subscription."@
}

/// Build a confirmation link with a dynamic root.
pub fn confirmation_link(base_url: &str, subscription_token: &str) -> (link: String)
    ensures
        link@ == confirmation_link_spec(base_url@, subscription_token@),
{
    let mut link = base_url.to_owned();
    link.append("/subscriptions/confirm?subscription_token=");
    link.append(subscription_token);
    link
}

/// The email that asks a new subscriber to confirm: who gets it, its
/// subject, and its HTML and plain-text bodies.
pub struct ConfirmationEmail {
    pub recipient: SubscriberEmail,
    pub subject: String,
    pub html_body: String,
    pub plain_body: String,
}

impl ConfirmationEmail {
    /// The confirmation email for `new_subscriber`, whose link points
    /// under `base_url` and carries `subscription_token`.
    pub fn new(new_subscriber: NewSubscriber, base_url: &str, subscription_token: &str) -> (mail:
        ConfirmationEmail)
        ensures
            mail.recipient@ == new_subscriber.email@,
            mail.subject@ == "Welcome"@,
            mail.plain_body@ == plain_body_spec(confirmation_link_spec(base_url@, subscription_token@)),
            mail.html_body@ == html_body_spec(confirmation_link_spec(base_url@, subscription_token@)),
    {
        let confirmation_link = confirmation_link(base_url, subscription_token);
        let mut plain_body = "Welcome to our newsletter!\nVisit ".to_owned();
        plain_body.append(confirmation_link.as_str());
        plain_body.append(" to confirm your subscription.");
        let mut html_body = "Welcome to our newsletter!<br />\
            Click <a href=\"".to_owned();
        html_body.append(confirmation_link.as_str());
        html_body.append("\">here</a> to confirm your subscription.");
        ConfirmationEmail {
            recipient: new_subscriber.email,
            subject: "Welcome".to_owned(),
            html_body,
            plain_body,
        }
    }
}

/// The status a new subscription is stored with.
pub open spec fn pending_confirmation() -> Seq<char> {
    "pending_confirmation"@
}

/// The row that saving a new subscriber's details writes: a fresh random
/// id, the email and name as parsed, the time of the subscription in
/// microseconds since the Unix epoch, and the status `pending_confirmation`.
pub struct SubscriberRow {
    pub id: u128,
    pub email: String,
    pub name: String,
    pub subscribed_at_micros: i64,
    pub status: String,
}

impl SubscriberRow {
    /// The row for `new_subscriber` with the given id and time.
    pub fn from_parts(new_subscriber: &NewSubscriber, id: u128, subscribed_at_micros: i64) -> (row:
        SubscriberRow)
        ensures
            row.id == id,
            row.subscribed_at_micros == subscribed_at_micros,
            row.email@ == new_subscriber.email@,
            row.name@ == new_subscriber.name@,
            row.status@ == pending_confirmation(),
    {
        SubscriberRow {
            id,
            email: new_subscriber.email.as_ref().to_owned(),
            name: new_subscriber.name.as_ref().to_owned(),
            subscribed_at_micros,
            status: "pending_confirmation".to_owned(),
        }
    }

    /// The row for `new_subscriber` with a fresh random id and the current
    /// time; `None` when no random id or no clock reading can be had.
    pub fn new(new_subscriber: &NewSubscriber) -> (row: Option<SubscriberRow>)
        ensures
            row matches Some(row) ==> {
                &&& is_random_uuid(row.id)
                &&& row.subscribed_at_micros >= 0
                &&& row.email@ == new_subscriber.email@
                &&& row.name@ == new_subscriber.name@
                &&& row.status@ == pending_confirmation()
            },
    {
        let id = match draw_uuid() {
            Some(id) => id,
            None => return None,
        };
        let subscribed_at_micros = match clock_micros() {
            Some(t) => t,
            None => return None,
        };
        Some(SubscriberRow::from_parts(new_subscriber, id, subscribed_at_micros))
    }
}

/// The answers the subscription endpoint gives.
#[derive(Clone, Copy, Debug, PartialEq, Eq, Structural)]
pub enum HttpStatus {
    Success,
    BadRequest,
    InternalServerError,
}

impl HttpStatus {
    pub open spec fn status_code(self) -> u16 {
        match self {
            HttpStatus::Success => 200,
            HttpStatus::BadRequest => 400,
            HttpStatus::InternalServerError => 500,
        }
    }

    /// The numeric HTTP status code.
    pub fn code(&self) -> (c: u16)
        ensures
            c == self.status_code(),
    {
        match self {
            HttpStatus::Success => 200,
            HttpStatus::BadRequest => 400,
            HttpStatus::InternalServerError => 500,
        }
    }
}

/// Where a subscription request stands: the outside step whose outcome it
/// waits for, or the answer it has given.
#[derive(Clone, Copy, Debug, PartialEq, Eq, Structural)]
pub enum SubscribeStage {
    BeginTransaction,
    InsertSubscriber,
    StoreToken,
    Commit,
    SendConfirmationEmail,
    Responded(HttpStatus),
}

/// The stage that follows `stage` once its step has come back, succeeded
/// or not. Any failure is answered with a 500; the last success with a 200.
pub open spec fn next_stage(stage: SubscribeStage, succeeded: bool) -> SubscribeStage {
    match stage {
        SubscribeStage::BeginTransaction => if succeeded {
            SubscribeStage::InsertSubscriber
        } else {
            SubscribeStage::Responded(HttpStatus::InternalServerError)
        },
        SubscribeStage::InsertSubscriber => if succeeded {
            SubscribeStage::StoreToken
        } else {
            SubscribeStage::Responded(HttpStatus::InternalServerError)
        },
        SubscribeStage::StoreToken => if succeeded {
            SubscribeStage::Commit
        } else {
            SubscribeStage::Responded(HttpStatus::InternalServerError)
        },
        SubscribeStage::Commit => if succeeded {
            SubscribeStage::SendConfirmationEmail
        } else {
            SubscribeStage::Responded(HttpStatus::InternalServerError)
        },
        SubscribeStage::SendConfirmationEmail => if succeeded {
            SubscribeStage::Responded(HttpStatus::Success)
        } else {
            SubscribeStage::Responded(HttpStatus::InternalServerError)
        },
        SubscribeStage::Responded(status) => SubscribeStage::Responded(status),
    }
}

/// The stages whose request carries a draw of the library's own: the row's
/// random id and clock reading for the insert, the token for its store.
/// Moving into one of them ends in a 500 instead when the draw fails.
pub open spec fn needs_draw(stage: SubscribeStage) -> bool {
    stage is InsertSubscriber || stage is StoreToken
}

/// The draw that `stage` needs to move on was had.
pub open spec fn has_draw(stage: SubscribeStage, row: Option<SubscriberRow>, token: Option<String>) -> bool {
    match stage {
        SubscribeStage::BeginTransaction => row is Some,
        SubscribeStage::InsertSubscriber => token is Some,
        _ => true,
    }
}

/// What the caller is asked to do next: one outside step, or answer.
pub enum SubscribeAction {
    BeginTransaction,
    InsertSubscriber(SubscriberRow),
    StoreToken { subscriber_id: u128, subscription_token: String },
    Commit,
    SendConfirmationEmail(ConfirmationEmail),
    Respond(HttpStatus),
}

/// The action that a subscription in `stage` has asked for.
pub open spec fn asks_for(stage: SubscribeStage, action: SubscribeAction) -> bool {
    match stage {
        SubscribeStage::BeginTransaction => action is BeginTransaction,
        SubscribeStage::InsertSubscriber => action is InsertSubscriber,
        SubscribeStage::StoreToken => action is StoreToken,
        SubscribeStage::Commit => action is Commit,
        SubscribeStage::SendConfirmationEmail => action is SendConfirmationEmail,
        SubscribeStage::Responded(status) => action == SubscribeAction::Respond(status),
    }
}

/// A subscription request in progress, with what its later steps need.
pub enum Subscription {
    BeginningTransaction { new_subscriber: NewSubscriber, base_url: String },
    InsertingSubscriber { new_subscriber: NewSubscriber, base_url: String, subscriber_id: u128 },
    StoringToken { new_subscriber: NewSubscriber, base_url: String, subscription_token: String },
    Committing { new_subscriber: NewSubscriber, base_url: String, subscription_token: String },
    SendingConfirmation,
    Responded(HttpStatus),
}

impl Subscription {
    pub open spec fn stage(&self) -> SubscribeStage {
        match self {
            Subscription::BeginningTransaction { .. } => SubscribeStage::BeginTransaction,
            Subscription::InsertingSubscriber { .. } => SubscribeStage::InsertSubscriber,
            Subscription::StoringToken { .. } => SubscribeStage::StoreToken,
            Subscription::Committing { .. } => SubscribeStage::Commit,
            Subscription::SendingConfirmation => SubscribeStage::SendConfirmationEmail,
            Subscription::Responded(status) => SubscribeStage::Responded(*status),
        }
    }

    /// The subscriber's email address and name, while they are held.
    pub open spec fn subscriber(&self) -> (Seq<char>, Seq<char>) {
        match self {
            Subscription::BeginningTransaction { new_subscriber, .. } => (new_subscriber.email@, new_subscriber.name@),
            Subscription::InsertingSubscriber { new_subscriber, .. } => (new_subscriber.email@, new_subscriber.name@),
            Subscription::StoringToken { new_subscriber, .. } => (new_subscriber.email@, new_subscriber.name@),
            Subscription::Committing { new_subscriber, .. } => (new_subscriber.email@, new_subscriber.name@),
            _ => (Seq::empty(), Seq::empty()),
        }
    }

    pub open spec fn base_url(&self) -> Seq<char> {
        match self {
            Subscription::BeginningTransaction { base_url, .. } => base_url@,
            Subscription::InsertingSubscriber { base_url, .. } => base_url@,
            Subscription::StoringToken { base_url, .. } => base_url@,
            Subscription::Committing { base_url, .. } => base_url@,
            _ => Seq::empty(),
        }
    }

    pub open spec fn subscription_token(&self) -> Seq<char> {
        match self {
            Subscription::StoringToken { subscription_token, .. } => subscription_token@,
            Subscription::Committing { subscription_token, .. } => subscription_token@,
            _ => Seq::empty(),
        }
    }

    /// Begins handling a submitted form: a form that does not convert to a
    /// subscriber is answered with a 400 before any outside step; otherwise
    /// the first step is to open a database transaction.
    pub fn start(form: FormData, base_url: String) -> (res: (Subscription, SubscribeAction))
        ensures
            form_outcome(form.email@, form.name@) is Err ==> res.0.stage()
                == SubscribeStage::Responded(HttpStatus::BadRequest),
            form_outcome(form.email@, form.name@) is Ok ==> {
                &&& res.0.stage() == SubscribeStage::BeginTransaction
                &&& res.0.subscriber() == (form.email@, form.name@)
                &&& res.0.base_url() == base_url@
            },
            is_short_valid_name(form.name@) && accepted_email(form.email@) ==> res.0.stage()
                == SubscribeStage::BeginTransaction,
            asks_for(res.0.stage(), res.1),
    {
        let ghost email = form.email@;
        let ghost name = form.name@;
        match NewSubscriber::try_from(form) {
            Ok(new_subscriber) => {
                proof {
                    assert(form_outcome(email, name) == Ok::<(Seq<char>, Seq<char>), Seq<char>>(
                        (new_subscriber.email@, new_subscriber.name@),
                    ));
                }
                (
                    Subscription::BeginningTransaction { new_subscriber, base_url },
                    SubscribeAction::BeginTransaction,
                )
            },
            Err(_) => (
                Subscription::Responded(HttpStatus::BadRequest),
                SubscribeAction::Respond(HttpStatus::BadRequest),
            ),
        }
    }

    /// Takes the outcome of the step the subscription waits for and moves
    /// on: to the next step, or to its answer. When the next step needs a
    /// random id, the clock or a token and none can be had, the answer is a
    /// 500, as for a failed step.
    pub fn step(self, succeeded: bool) -> (res: (Subscription, SubscribeAction))
        ensures
            res.0.stage() == next_stage(self.stage(), succeeded) || {
                &&& succeeded
                &&& needs_draw(next_stage(self.stage(), true))
                &&& res.0.stage() == next_stage(self.stage(), false)
            },
            asks_for(res.0.stage(), res.1),
            res.1 matches SubscribeAction::InsertSubscriber(row) ==> {
                &&& (row.email@, row.name@) == self.subscriber()
                &&& row.status@ == pending_confirmation()
                &&& row.subscribed_at_micros >= 0
                &&& is_random_uuid(row.id)
                &&& res.0->subscriber_id == row.id
                &&& res.0.subscriber() == self.subscriber()
                &&& res.0.base_url() == self.base_url()
            },
            res.1 matches SubscribeAction::StoreToken { subscriber_id, subscription_token } ==> {
                &&& subscriber_id == self->subscriber_id
                &&& is_subscription_token(subscription_token@)
                &&& res.0.subscription_token() == subscription_token@
                &&& res.0.subscriber() == self.subscriber()
                &&& res.0.base_url() == self.base_url()
            },
            res.1 is Commit ==> {
                &&& res.0.subscription_token() == self.subscription_token()
                &&& res.0.subscriber() == self.subscriber()
                &&& res.0.base_url() == self.base_url()
            },
            res.1 matches SubscribeAction::SendConfirmationEmail(mail) ==> {
                let link = confirmation_link_spec(self.base_url(), self.subscription_token());
                &&& mail.recipient@ == self.subscriber().0
                &&& mail.subject@ == "Welcome"@
                &&& mail.plain_body@ == plain_body_spec(link)
                &&& mail.html_body@ == html_body_spec(link)
            },
    {
        let row = match &self {
            Subscription::BeginningTransaction { new_subscriber, .. } => if succeeded {
                SubscriberRow::new(new_subscriber)
            } else {
                None
            },
            _ => None,
        };
        let token = match &self {
            Subscription::InsertingSubscriber { .. } => if succeeded {
                generate_subscription_token()
            } else {
                None
            },
            _ => None,
        };
        self.advance(succeeded, row, token)
    }

    /// The move `step` makes, with the draws it needs taken as arguments:
    /// the row for the insert that follows a begun transaction, the token
    /// to store after the insert. A missing draw counts as a failed step;
    /// a draw the stage does not need is not looked at.
    pub fn advance(self, succeeded: bool, row: Option<SubscriberRow>, token: Option<String>) -> (res: (
        Subscription,
        SubscribeAction,
    ))
        ensures
            res.0.stage() == next_stage(self.stage(), succeeded && has_draw(self.stage(), row, token)),
            asks_for(res.0.stage(), res.1),
            res.1 matches SubscribeAction::InsertSubscriber(r) ==> {
                &&& row == Some(r)
                &&& res.0->subscriber_id == r.id
                &&& res.0.subscriber() == self.subscriber()
                &&& res.0.base_url() == self.base_url()
            },
            res.1 matches SubscribeAction::StoreToken { subscriber_id, subscription_token } ==> {
                &&& subscriber_id == self->subscriber_id
                &&& token == Some(subscription_token)
                &&& res.0.subscription_token() == subscription_token@
                &&& res.0.subscriber() == self.subscriber()
                &&& res.0.base_url() == self.base_url()
            },
            res.1 is Commit ==> {
                &&& res.0.subscription_token() == self.subscription_token()
                &&& res.0.subscriber() == self.subscriber()
                &&& res.0.base_url() == self.base_url()
            },
            res.1 matches SubscribeAction::SendConfirmationEmail(mail) ==> {
                let link = confirmation_link_spec(self.base_url(), self.subscription_token());
                &&& mail.recipient@ == self.subscriber().0
                &&& mail.subject@ == "Welcome"@
                &&& mail.plain_body@ == plain_body_spec(link)
                &&& mail.html_body@ == html_body_spec(link)
            },
    {
        let failed = (
            Subscription::Responded(HttpStatus::InternalServerError),
            SubscribeAction::Respond(HttpStatus::InternalServerError),
        );
        match self {
            Subscription::BeginningTransaction { new_subscriber, base_url } => {
                if !succeeded {
                    return failed;
                }
                let row = match row {
                    Some(row) => row,
                    None => return failed,
                };
                let subscriber_id = row.id;
                (
                    Subscription::InsertingSubscriber { new_subscriber, base_url, subscriber_id },
                    SubscribeAction::InsertSubscriber(row),
                )
            },
            Subscription::InsertingSubscriber { new_subscriber, base_url, subscriber_id } => {
                if !succeeded {
                    return failed;
                }
                let subscription_token = match token {
                    Some(token) => token,
                    None => return failed,
                };
                let token = subscription_token.clone();
                (
                    Subscription::StoringToken { new_subscriber, base_url, subscription_token },
                    SubscribeAction::StoreToken { subscriber_id, subscription_token: token },
                )
            },
            Subscription::StoringToken { new_subscriber, base_url, subscription_token } => {
                if !succeeded {
                    return failed;
                }
                (
                    Subscription::Committing { new_subscriber, base_url, subscription_token },
                    SubscribeAction::Commit,
                )
            },
            Subscription::Committing { new_subscriber, base_url, subscription_token } => {
                if !succeeded {
                    return failed;
                }
                let mail = ConfirmationEmail::new(
                    new_subscriber,
                    base_url.as_str(),
                    subscription_token.as_str(),
                );
                (Subscription::SendingConfirmation, SubscribeAction::SendConfirmationEmail(mail))
            },
            Subscription::SendingConfirmation => {
                if !succeeded {
                    return failed;
                }
                (Subscription::Responded(HttpStatus::Success), SubscribeAction::Respond(HttpStatus::Success))
            },
            Subscription::Responded(status) => {
                (Subscription::Responded(status), SubscribeAction::Respond(status))
            },
        }
    }
}

/// The outside steps of a subscription, in the order they are asked for;
/// past the last one stands the 200 answer.
pub open spec fn step_stage(k: int) -> SubscribeStage {
    if k <= 0 {
        SubscribeStage::BeginTransaction
    } else if k == 1 {
        SubscribeStage::InsertSubscriber
    } else if k == 2 {
        SubscribeStage::StoreToken
    } else if k == 3 {
        SubscribeStage::Commit
    } else if k == 4 {
        SubscribeStage::SendConfirmationEmail
    } else {
        SubscribeStage::Responded(HttpStatus::Success)
    }
}

/// How many outside steps a subscription takes before its 200.
pub open spec fn step_count() -> int {
    5
}

/// The stage reached from `stage` when the steps come back with `outcomes`,
/// in order. An outcome tells whether the step came through: its outside
/// work succeeded and, for a step that needs one (`needs_draw`), the draw
/// of the library's own was had; `Subscription::step` moves by it.
pub open spec fn run_stages(stage: SubscribeStage, outcomes: Seq<bool>) -> SubscribeStage
    decreases outcomes.len(),
{
    if outcomes.len() == 0 {
        stage
    } else {
        run_stages(next_stage(stage, outcomes[0]), outcomes.drop_first())
    }
}

/// None of the first `n` outcomes (of those there are) is a failure.
pub open spec fn first_succeed(outcomes: Seq<bool>, n: int) -> bool {
    forall|i: int| 0 <= i < n && i < outcomes.len() ==> #[trigger] outcomes[i]
}

/// One of the first `n` outcomes is a failure.
pub open spec fn fails_within(outcomes: Seq<bool>, n: int) -> bool {
    exists|i: int| 0 <= i < n && i < outcomes.len() && !#[trigger] outcomes[i]
}

proof fn lemma_run_from_step(k: int, outcomes: Seq<bool>)
    requires
        0 <= k < step_count(),
    ensures
        outcomes.len() >= step_count() - k && first_succeed(outcomes, step_count() - k)
            ==> run_stages(step_stage(k), outcomes) == SubscribeStage::Responded(HttpStatus::Success),
        outcomes.len() < step_count() - k && first_succeed(outcomes, outcomes.len() as int)
            ==> run_stages(step_stage(k), outcomes) == step_stage(k + outcomes.len()),
        fails_within(outcomes, step_count() - k) ==> run_stages(step_stage(k), outcomes)
            == SubscribeStage::Responded(HttpStatus::InternalServerError),
    decreases outcomes.len(),
{
    if outcomes.len() > 0 {
        let rest = outcomes.drop_first();
        if outcomes[0] {
            if k + 1 < step_count() {
                lemma_run_from_step(k + 1, rest);
                assert(first_succeed(outcomes, step_count() - k) ==> first_succeed(rest, step_count() - k - 1)) by {
                    if first_succeed(outcomes, step_count() - k) {
                        assert forall|i: int| 0 <= i < step_count() - k - 1 && i < rest.len() implies #[trigger] rest[i] by {
                            assert(outcomes[i + 1]);
                        }
                    }
                }
                assert(first_succeed(outcomes, outcomes.len() as int) ==> first_succeed(rest, rest.len() as int)) by {
                    if first_succeed(outcomes, outcomes.len() as int) {
                        assert forall|i: int| 0 <= i < rest.len() && i < rest.len() implies #[trigger] rest[i] by {
                            assert(outcomes[i + 1]);
                        }
                    }
                }
                assert(fails_within(outcomes, step_count() - k) ==> fails_within(rest, step_count() - k - 1)) by {
                    if fails_within(outcomes, step_count() - k) {
                        let i = choose|i: int| 0 <= i < step_count() - k && i < outcomes.len() && !#[trigger] outcomes[i];
                        assert(i != 0);
                        assert(!rest[i - 1]);
                    }
                }
            } else {
                lemma_responded_is_final(HttpStatus::Success, rest);
                assert(fails_within(outcomes, step_count() - k) ==> !outcomes[0]);
            }
        } else {
            lemma_responded_is_final(HttpStatus::InternalServerError, rest);
            assert(fails_within(outcomes, step_count() - k));
        }
    } else {
        assert(!fails_within(outcomes, step_count() - k));
    }
}

/// Once answered, a subscription keeps its answer whatever comes back.
pub proof fn lemma_responded_is_final(status: HttpStatus, outcomes: Seq<bool>)
    ensures
        run_stages(SubscribeStage::Responded(status), outcomes) == SubscribeStage::Responded(status),
    decreases outcomes.len(),
{
    if outcomes.len() > 0 {
        lemma_responded_is_final(status, outcomes.drop_first());
    }
}

/// A subscription whose form converted is answered with a 200 exactly when
/// each of its outside steps (begin, insert, store the token, commit, send
/// the confirmation email) succeeded.
pub proof fn lemma_success_iff_every_step_succeeds(outcomes: Seq<bool>)
    ensures
        run_stages(SubscribeStage::BeginTransaction, outcomes) == SubscribeStage::Responded(HttpStatus::Success)
            <==> outcomes.len() >= step_count() && first_succeed(outcomes, step_count()),
{
    lemma_run_from_step(0, outcomes);
    if !(outcomes.len() >= step_count() && first_succeed(outcomes, step_count())) {
        if !first_succeed(outcomes, outcomes.len() as int) || outcomes.len() >= step_count() {
            assert(fails_within(outcomes, step_count()));
        }
    }
}

/// A subscription whose form converted is answered with a 500 exactly when
/// one of its outside steps failed.
pub proof fn lemma_failure_iff_a_step_fails(outcomes: Seq<bool>)
    ensures
        run_stages(SubscribeStage::BeginTransaction, outcomes)
            == SubscribeStage::Responded(HttpStatus::InternalServerError) <==> fails_within(outcomes, step_count()),
{
    lemma_run_from_step(0, outcomes);
    if !fails_within(outcomes, step_count()) {
        if outcomes.len() >= step_count() {
            assert(first_succeed(outcomes, step_count()));
        } else {
            assert(first_succeed(outcomes, outcomes.len() as int));
        }
    }
}

/// The steps are asked for in order, each only after all before it
/// succeeded: a subscription still waits on a step exactly when no step
/// has failed and fewer than all have come back, and then it waits on the
/// next one. So the token is stored only after the insert, the transaction
/// committed only after both, and the email sent only after the commit.
pub proof fn lemma_steps_run_in_order(outcomes: Seq<bool>)
    ensures
        !(run_stages(SubscribeStage::BeginTransaction, outcomes) is Responded)
            <==> outcomes.len() < step_count() && first_succeed(outcomes, outcomes.len() as int),
        outcomes.len() < step_count() && first_succeed(outcomes, outcomes.len() as int)
            ==> run_stages(SubscribeStage::BeginTransaction, outcomes) == step_stage(outcomes.len() as int),
{
    lemma_run_from_step(0, outcomes);
    if !(outcomes.len() < step_count() && first_succeed(outcomes, outcomes.len() as int)) {
        if outcomes.len() >= step_count() && first_succeed(outcomes, step_count()) {
        } else {
            assert(fails_within(outcomes, step_count()));
        }
    }
}

/// `part` stands in `body` whole, starting at position `at`.
pub open spec fn holds_at(body: Seq<char>, part: Seq<char>, at: int) -> bool {
    &&& 0 <= at
    &&& at + part.len() <= body.len()
    &&& body.subrange(at, at + part.len()) == part
}

/// Both bodies of a confirmation email carry the confirmation link whole,
/// right after their fixed lead-in text.
pub proof fn lemma_bodies_carry_the_link(base_url: Seq<char>, subscription_token: Seq<char>)
    ensures
        ({
            let link = confirmation_link_spec(base_url, subscription_token);
            &&& holds_at(plain_body_spec(link), link, "Welcome to our newsletter!\nVisit "@.len() as int)
            &&& holds_at(html_body_spec(link), link,
                "Welcome to our newsletter!<br />Click <a href=\""@.len() as int)
        }),
{
    let link = confirmation_link_spec(base_url, subscription_token);
    let p1 = "Welcome to our newsletter!\nVisit "@;
    let s1 = " to confirm your subscription."@;
    assert((p1 + link + s1).subrange(p1.len() as int, (p1.len() + link.len()) as int) =~= link);
    let p2 = "Welcome to our newsletter!<br />Click <a href=\""@;
    let s2 = "\">here</a> to confirm your subscription."@;
    assert((p2 + link + s2).subrange(p2.len() as int, (p2.len() + link.len()) as int) =~= link);
}

/// `part` stands in `body` whole at position `at`, and at no other position.
pub open spec fn holds_only_at(body: Seq<char>, part: Seq<char>, at: int) -> bool {
    &&& holds_at(body, part, at)
    &&& forall|i: int| #[trigger] holds_at(body, part, i) ==> i == at
}

/// A base URL that confirmation links can be built on: it begins with
/// `http` and holds no whitespace and no double quote.
pub open spec fn is_link_base(base_url: Seq<char>) -> bool {
    &&& base_url.len() >= 4
    &&& base_url[0] == 'h' && base_url[1] == 't' && base_url[2] == 't' && base_url[3] == 'p'
    &&& forall|i: int| 0 <= i < base_url.len() ==> !crate::domain::is_whitespace(#[trigger] base_url[i])
        && base_url[i] != '"'
}

/// No `h` in `s` is followed by a `t`.
pub open spec fn no_ht(s: Seq<char>) -> bool {
    forall|j: int| 0 <= j < s.len() - 1 ==> !(#[trigger] s[j] == 'h' && s[j + 1] == 't')
}

proof fn lemma_holds_only_between(pre: Seq<char>, l: Seq<char>, suf: Seq<char>)
    requires
        l.len() >= 2,
        l[0] == 'h',
        l[1] == 't',
        pre.len() >= 1,
        suf.len() >= 1,
        forall|k: int| 0 <= k < l.len() ==> #[trigger] l[k] != pre.last() && l[k] != suf[0],
        no_ht(pre),
        no_ht(suf),
    ensures
        holds_only_at(pre + l + suf, l, pre.len() as int),
{
    let b = pre + l + suf;
    let p = pre.len() as int;
    assert(b.subrange(p, p + l.len()) =~= l);
    assert forall|i: int| #[trigger] holds_at(b, l, i) implies i == p by {
        let w = b.subrange(i, i + l.len());
        if i < p {
            if i + l.len() >= p {
                let k = p - 1 - i;
                assert(w[k] == b[p - 1]);
                assert(b[p - 1] == pre.last());
                assert(l[k] == pre.last());
            } else {
                assert(w[0] == b[i] && w[1] == b[i + 1]);
                assert(pre[i] == 'h' && pre[i + 1] == 't');
            }
        } else if i > p {
            if i <= p + l.len() {
                let k = p + l.len() - i;
                assert(w[k] == b[p + l.len()]);
                assert(b[p + l.len()] == suf[0]);
                assert(l[k] == suf[0]);
            } else {
                let j = i - p - l.len();
                assert(w[0] == b[i] && w[1] == b[i + 1]);
                assert(suf[j] == 'h' && suf[j + 1] == 't');
            }
        }
    }
}

/// Each body of a confirmation email holds the confirmation link exactly
/// once, when the base URL is an `http` address without whitespace or
/// double quotes and every character of the token is an ASCII letter or
/// digit.
pub proof fn lemma_bodies_hold_the_link_once(base_url: Seq<char>, subscription_token: Seq<char>)
    requires
        is_link_base(base_url),
        forall|i: int| 0 <= i < subscription_token.len() ==> is_token_char(#[trigger] subscription_token[i]),
    ensures
        ({
            let link = confirmation_link_spec(base_url, subscription_token);
            &&& holds_only_at(plain_body_spec(link), link, "Welcome to our newsletter!\nVisit "@.len() as int)
            &&& holds_only_at(html_body_spec(link), link,
                "Welcome to our newsletter!<br />Click <a href=\""@.len() as int)
        }),
{
    let mid = "/subscriptions/confirm?subscription_token="@;
    let link = confirmation_link_spec(base_url, subscription_token);
    let p1 = "Welcome to our newsletter!\nVisit "@;
    let s1 = " to confirm your subscription."@;
    let p2 = "Welcome to our newsletter!<br />Click <a href=\""@;
    let s2 = "\">here</a> to confirm your subscription."@;
    reveal_strlit("/subscriptions/confirm?subscription_token=");
    reveal_strlit("Welcome to our newsletter!\nVisit ");
    reveal_strlit(" to confirm your subscription.");
    reveal_strlit("Welcome to our newsletter!<br />Click <a href=\"");
    reveal_strlit("\">here</a> to confirm your subscription.");
    assert(link =~= base_url + mid + subscription_token);
    assert(p1.last() == ' ' && s1[0] == ' ');
    assert(p2.last() == '"' && s2[0] == '"');
    assert forall|k: int| 0 <= k < link.len() implies #[trigger] link[k] != ' ' && link[k] != '"' by {
        if k < base_url.len() {
            assert(!crate::domain::is_whitespace(base_url[k]) && base_url[k] != '"');
        } else if k < base_url.len() + mid.len() {
            let m = k - base_url.len();
            assert(link[k] == mid[m]);
        } else {
            let t = k - base_url.len() - mid.len();
            assert(link[k] == subscription_token[t]);
            assert(is_token_char(subscription_token[t]));
        }
    }
    assert(no_ht(p1));
    assert(no_ht(s1));
    assert(no_ht(p2));
    assert(no_ht(s2));
    lemma_holds_only_between(p1, link, s1);
    lemma_holds_only_between(p2, link, s2);
}

/// A confirmation link is the whole base URL, then the 42 characters of
/// `/subscriptions/confirm?subscription_token=`, then the whole token:
/// nothing is cut, and the link ends with the token.
pub proof fn lemma_link_is_base_path_and_whole_token(base_url: Seq<char>, subscription_token: Seq<char>)
    ensures
        ({
            let link = confirmation_link_spec(base_url, subscription_token);
            let b = base_url.len() as int;
            &&& link.len() == base_url.len() + 42 + subscription_token.len()
            &&& link.subrange(0, b) == base_url
            &&& link.subrange(b, b + 42) == "/subscriptions/confirm?subscription_token="@
            &&& link.subrange(link.len() - subscription_token.len(), link.len() as int)
                == subscription_token
        }),
{
    reveal_strlit("/subscriptions/confirm?subscription_token=");
    let path = "/subscriptions/confirm?subscription_token="@;
    let link = confirmation_link_spec(base_url, subscription_token);
    let b = base_url.len() as int;
    assert(path.len() == 42);
    assert(link.subrange(0, b) =~= base_url);
    assert(link.subrange(b, b + 42) =~= path);
    assert(link.subrange(link.len() - subscription_token.len(), link.len() as int) =~= subscription_token);
}

/// Drawn values never make a step fail: with a row and a token at hand,
/// whatever they hold, every stage moves as its outside step's outcome says.
pub proof fn lemma_drawn_values_never_fail_a_step(
    stage: SubscribeStage,
    succeeded: bool,
    row: SubscriberRow,
    token: String,
)
    ensures
        has_draw(stage, Some(row), Some(token)),
        next_stage(stage, succeeded && has_draw(stage, Some(row), Some(token))) == next_stage(
            stage,
            succeeded,
        ),
{
}

/// A missing draw fails only the step that needs it: the row after a begun
/// transaction, the token after the insert.
pub proof fn lemma_only_a_missing_draw_fails(
    stage: SubscribeStage,
    row: Option<SubscriberRow>,
    token: Option<String>,
)
    ensures
        !has_draw(stage, row, token) ==> (stage == SubscribeStage::BeginTransaction && row is None)
            || (stage == SubscribeStage::InsertSubscriber && token is None),
        stage == SubscribeStage::BeginTransaction && row is Some ==> has_draw(stage, row, token),
        stage == SubscribeStage::InsertSubscriber && token is Some ==> has_draw(stage, row, token),
{
}

} // verus!

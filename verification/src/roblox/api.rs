//! The client's side of one remote operation: which request to send, when to
//! wait, when to try again and when to give up.
//!
//! The client itself neither waits nor sends. An [`Exchange`] says what is to
//! be done next as an [`Action`]; whoever drives it does so and reports back
//! with an [`Event`].

use crate::products::ProductKind;
use crate::roblox::json::{decode_gamepass, decode_product, gamepass_info, product_info};
use crate::roblox::{
    gamepass_info_url, gamepass_info_url_spec, gamepass_update_url, gamepass_update_url_spec,
    gamepass_url, gamepass_url_spec, product_info_url, product_info_url_spec, product_update_url,
    product_update_url_spec, product_url, product_url_spec, GamepassResponse, Product,
    ProductResponse, ProductView, RemoteInfoView,
};
use crate::text::{decimal, decimal_nat, push_decimal, push_decimal_nat};
use vstd::prelude::*;
use vstd::string::*;

verus! {

/// How often one request is sent before the client gives up on a remote
/// platform that keeps answering "too many requests".
pub const MAX_ATTEMPTS: u32 = 5;

/// The pause after the first throttled attempt, in milliseconds; the pause
/// after the n-th is n times as long.
pub const BACKOFF_STEP_MILLIS: u64 = 1000;

/// The pause before the rate limiter is asked again, in milliseconds.
pub const TOKEN_POLL_MILLIS: u64 = 50;

/// How many requests per second the rate limiter lets through, for all
/// workers together.
pub const REQUESTS_PER_SECOND: u32 = 3;

/// After how many seconds a request that got no reply is given up.
pub const REQUEST_TIMEOUT_SECONDS: u64 = 30;

/// The status with which the remote platform says "too many requests".
pub const TOO_MANY_REQUESTS: u16 = 429;

/// Whether a status reports success: the range from 200 to 299.
pub open spec fn is_success_spec(status: u16) -> bool {
    200 <= status < 300
}

#[verifier::when_used_as_spec(is_success_spec)]
pub fn is_success(status: u16) -> (ok: bool)
    ensures
        ok == is_success_spec(status),
{
    200 <= status && status < 300
}

/// The verb of a request.
#[derive(Clone, Copy, Debug, PartialEq, Eq, Structural)]
pub enum Method {
    Post,
    Patch,
    Get,
}

/// What a remote operation does: create a new item, or update the one that
/// carries the given remote identifier.
#[derive(Clone, Copy, Debug, PartialEq, Eq, Structural)]
pub enum Operation {
    Create,
    Update { id: i64 },
}

/// An update takes two requests: the change itself, then a fetch of the
/// item's description. A create takes only the first.
#[derive(Clone, Copy, Debug, PartialEq, Eq, Structural)]
pub enum Phase {
    Mutate,
    Fetch,
}

/// One text field of a multipart form.
#[derive(Debug)]
pub struct FormField {
    pub name: String,
    pub value: String,
}

impl View for FormField {
    type V = (Seq<char>, Seq<char>);

    open spec fn view(&self) -> (Seq<char>, Seq<char>) {
        (self.name@, self.value@)
    }
}

/// The multipart form of a create or an update: its text fields in order,
/// and the path of the image to attach as `imageFile`, if any.
#[derive(Debug)]
pub struct Form {
    pub fields: Vec<FormField>,
    pub image_file: Option<String>,
}

/// Mathematical value of a [`Form`].
pub struct FormView {
    pub fields: Seq<(Seq<char>, Seq<char>)>,
    pub image_file: Option<Seq<char>>,
}

impl View for Form {
    type V = FormView;

    open spec fn view(&self) -> FormView {
        FormView {
            fields: self.fields@.map_values(|f: FormField| f@),
            image_file: match self.image_file {
                Some(path) => Some(path@),
                None => None,
            },
        }
    }
}

/// How a flag is written in a form.
pub open spec fn bool_text(flag: bool) -> Seq<char> {
    if flag {
        "true"@
    } else {
        "false"@
    }
}

/// The form that carries a payload. The image is attached only where a path
/// is given and a file exists at it.
pub open spec fn form_spec(data: ProductView, image_exists: bool) -> FormView {
    FormView {
        fields: seq![
            ("name"@, data.name),
            ("description"@, data.description),
            ("price"@, decimal(data.price)),
            ("isForSale"@, "true"@),
            ("isRegionalPricingEnabled"@, bool_text(data.regional_pricing)),
        ],
        image_file: if data.image_file.len() > 0 && image_exists {
            Some(data.image_file)
        } else {
            None
        },
    }
}

fn field(name: &str, value: String) -> (f: FormField)
    ensures
        f@ == (name@, value@),
{
    FormField { name: String::from_str(name), value }
}

/// Builds the multipart form of a payload. `image_exists` says whether a file
/// exists at the payload's image path; a missing image is left out and is no
/// error.
pub fn build_form(data: &Product, image_exists: bool) -> (form: Form)
    ensures
        form@ == form_spec(data@, image_exists),
{
    let mut price = String::new();
    push_decimal(&mut price, data.price);
    let flag = if data.regional_pricing {
        String::from_str("true")
    } else {
        String::from_str("false")
    };
    let mut fields: Vec<FormField> = Vec::new();
    fields.push(field("name", data.name.clone()));
    fields.push(field("description", data.description.clone()));
    fields.push(field("price", price));
    fields.push(field("isForSale", String::from_str("true")));
    fields.push(field("isRegionalPricingEnabled", flag));
    let image_file = if data.image_file.as_str().unicode_len() > 0 && image_exists {
        Some(data.image_file.clone())
    } else {
        None
    };
    let form = Form { fields, image_file };
    assert(form@.fields =~= form_spec(data@, image_exists).fields);
    form
}

/// A request that the driver is to send. The key goes into the `x-api-key`
/// header; `data` is the payload of a create or an update and is absent from
/// a fetch.
#[derive(Debug)]
pub struct Request {
    pub method: Method,
    pub url: String,
    pub api_key: String,
    pub data: Option<Product>,
}

/// Mathematical value of a [`Request`].
pub struct RequestView {
    pub method: Method,
    pub url: Seq<char>,
    pub api_key: Seq<char>,
    pub data: Option<ProductView>,
}

impl View for Request {
    type V = RequestView;

    open spec fn view(&self) -> RequestView {
        RequestView {
            method: self.method,
            url: self.url@,
            api_key: self.api_key@,
            data: match self.data {
                Some(data) => Some(data@),
                None => None,
            },
        }
    }
}

/// What the remote platform reports of an item of either kind.
#[derive(Debug)]
pub struct RemoteInfo {
    pub id: i64,
    pub name: String,
    pub icon: Option<i64>,
}

impl View for RemoteInfo {
    type V = RemoteInfoView;

    open spec fn view(&self) -> RemoteInfoView {
        RemoteInfoView {
            id: self.id as int,
            name: self.name@,
            icon: match self.icon {
                Some(icon) => Some(icon as int),
                None => None,
            },
        }
    }
}

impl Clone for RemoteInfo {
    fn clone(&self) -> (copy: Self)
        ensures
            copy@ == self@,
    {
        RemoteInfo { id: self.id, name: self.name.clone(), icon: self.icon }
    }
}

impl ProductResponse {
    /// The same report without its kind.
    pub fn into_info(self) -> (info: RemoteInfo)
        ensures
            info@ == self@,
    {
        RemoteInfo { id: self.product_id, name: self.name, icon: self.icon_image_asset_id }
    }
}

impl GamepassResponse {
    /// The same report without its kind.
    pub fn into_info(self) -> (info: RemoteInfo)
        ensures
            info@ == self@,
    {
        RemoteInfo { id: self.game_pass_id, name: self.name, icon: self.icon_asset_id }
    }
}

/// Why a remote operation failed.
#[derive(Debug)]
pub enum RemoteError {
    /// The remote platform answered "too many requests" to every attempt.
    RateLimitExceeded { attempts: u64 },
    /// The remote platform answered with a status that is neither success nor
    /// "too many requests".
    Status { status: u16, body: String },
    /// The remote platform reported success with a body that does not
    /// describe an item.
    Decode { body: String },
    /// The request could not be sent, or no reply came.
    Transport { message: String },
}

/// Mathematical value of a [`RemoteError`].
pub enum RemoteErrorView {
    RateLimitExceeded { attempts: u64 },
    Status { status: u16, body: Seq<char> },
    Decode { body: Seq<char> },
    Transport { message: Seq<char> },
}

impl View for RemoteError {
    type V = RemoteErrorView;

    open spec fn view(&self) -> RemoteErrorView {
        match self {
            RemoteError::RateLimitExceeded { attempts } => RemoteErrorView::RateLimitExceeded {
                attempts: *attempts,
            },
            RemoteError::Status { status, body } => RemoteErrorView::Status {
                status: *status,
                body: body@,
            },
            RemoteError::Decode { body } => RemoteErrorView::Decode { body: body@ },
            RemoteError::Transport { message } => RemoteErrorView::Transport {
                message: message@,
            },
        }
    }
}

impl Clone for RemoteError {
    fn clone(&self) -> (copy: Self)
        ensures
            copy@ == self@,
    {
        match self {
            RemoteError::RateLimitExceeded { attempts } => RemoteError::RateLimitExceeded {
                attempts: *attempts,
            },
            RemoteError::Status { status, body } => RemoteError::Status {
                status: *status,
                body: body.clone(),
            },
            RemoteError::Decode { body } => RemoteError::Decode { body: body.clone() },
            RemoteError::Transport { message } => RemoteError::Transport {
                message: message.clone(),
            },
        }
    }
}

/// The text that reports an error to the user.
pub open spec fn error_message(error: RemoteErrorView) -> Seq<char> {
    match error {
        RemoteErrorView::RateLimitExceeded { attempts } =>
            "Rate limit hit too many times, giving up after "@ + decimal_nat(attempts as nat)
                + " attempts"@,
        RemoteErrorView::Status { status, body } => "Request failed ("@ + decimal_nat(
            status as nat,
        ) + "): "@ + body,
        RemoteErrorView::Decode { body } => "Failed to decode response: "@ + body,
        RemoteErrorView::Transport { message } => "Request could not be sent: "@ + message,
    }
}

impl RemoteError {
    /// Renders the error for the user.
    pub fn message(&self) -> (text: String)
        ensures
            text@ == error_message(self@),
    {
        match self {
            RemoteError::RateLimitExceeded { attempts } => {
                let mut text = String::from_str("Rate limit hit too many times, giving up after ");
                push_decimal_nat(&mut text, *attempts);
                text.append(" attempts");
                text
            },
            RemoteError::Status { status, body } => {
                let mut text = String::from_str("Request failed (");
                push_decimal_nat(&mut text, *status as u64);
                text.append("): ");
                text.append(body.as_str());
                text
            },
            RemoteError::Decode { body } => {
                let mut text = String::from_str("Failed to decode response: ");
                text.append(body.as_str());
                text
            },
            RemoteError::Transport { message } => {
                let mut text = String::from_str("Request could not be sent: ");
                text.append(message.as_str());
                text
            },
        }
    }
}

/// Where an exchange stands.
#[derive(Debug)]
pub enum Stage {
    /// The next request may be sent once the rate limiter grants a token.
    AwaitToken,
    /// A pause is due: the rate limiter had no token, or the remote platform
    /// was throttling.
    Waiting { millis: u64 },
    /// A token was granted; the request is to be sent and its reply reported.
    AwaitReply,
    /// The operation succeeded.
    Done(RemoteInfo),
    /// The operation failed.
    Failed(RemoteError),
}

/// Mathematical value of a [`Stage`].
pub enum StageView {
    AwaitToken,
    Waiting { millis: u64 },
    AwaitReply,
    Done(RemoteInfoView),
    Failed(RemoteErrorView),
}

impl View for Stage {
    type V = StageView;

    open spec fn view(&self) -> StageView {
        match self {
            Stage::AwaitToken => StageView::AwaitToken,
            Stage::Waiting { millis } => StageView::Waiting { millis: *millis },
            Stage::AwaitReply => StageView::AwaitReply,
            Stage::Done(info) => StageView::Done(info@),
            Stage::Failed(error) => StageView::Failed(error@),
        }
    }
}

/// One remote operation in progress: what it is about, and how far it has
/// come.
#[derive(Debug)]
pub struct Exchange {
    pub kind: ProductKind,
    pub universe_id: i64,
    pub operation: Operation,
    pub api_key: String,
    pub data: Product,
    pub phase: Phase,
    /// How often the request of the current phase was answered with "too many
    /// requests".
    pub attempts: u32,
    pub stage: Stage,
}

/// Mathematical value of an [`Exchange`].
pub struct ExchangeView {
    pub kind: ProductKind,
    pub universe_id: i64,
    pub operation: Operation,
    pub api_key: Seq<char>,
    pub data: ProductView,
    pub phase: Phase,
    pub attempts: u32,
    pub stage: StageView,
}

impl View for Exchange {
    type V = ExchangeView;

    open spec fn view(&self) -> ExchangeView {
        ExchangeView {
            kind: self.kind,
            universe_id: self.universe_id,
            operation: self.operation,
            api_key: self.api_key@,
            data: self.data@,
            phase: self.phase,
            attempts: self.attempts,
            stage: self.stage@,
        }
    }
}

/// What the driver of an exchange is to do next.
#[derive(Debug)]
pub enum Action {
    /// Ask the rate limiter for a token and report [`Event::Token`].
    PollLimiter,
    /// Pause for so many milliseconds and report [`Event::Slept`].
    Sleep { millis: u64 },
    /// Send the request and report [`Event::Reply`] or [`Event::SendFailed`].
    Send(Request),
    /// Nothing more: the operation succeeded with this report.
    Done(RemoteInfo),
    /// Nothing more: the operation failed with this error.
    Fail(RemoteError),
}

/// Mathematical value of an [`Action`].
pub enum ActionView {
    PollLimiter,
    Sleep { millis: u64 },
    Send(RequestView),
    Done(RemoteInfoView),
    Fail(RemoteErrorView),
}

impl View for Action {
    type V = ActionView;

    open spec fn view(&self) -> ActionView {
        match self {
            Action::PollLimiter => ActionView::PollLimiter,
            Action::Sleep { millis } => ActionView::Sleep { millis: *millis },
            Action::Send(request) => ActionView::Send(request@),
            Action::Done(info) => ActionView::Done(info@),
            Action::Fail(error) => ActionView::Fail(error@),
        }
    }
}

/// What the driver of an exchange reports back.
#[derive(Debug)]
pub enum Event {
    /// The rate limiter was asked; `granted` says whether it gave a token.
    Token { granted: bool },
    /// The pause is over.
    Slept,
    /// The remote platform answered.
    Reply { status: u16, body: String },
    /// The request could not be sent, or no reply came.
    SendFailed { message: String },
}

/// Mathematical value of an [`Event`].
pub enum EventView {
    Token { granted: bool },
    Slept,
    Reply { status: u16, body: Seq<char> },
    SendFailed { message: Seq<char> },
}

impl View for Event {
    type V = EventView;

    open spec fn view(&self) -> EventView {
        match self {
            Event::Token { granted } => EventView::Token { granted: *granted },
            Event::Slept => EventView::Slept,
            Event::Reply { status, body } => EventView::Reply { status: *status, body: body@ },
            Event::SendFailed { message } => EventView::SendFailed { message: message@ },
        }
    }
}

/// An exchange that has not begun: nothing was sent yet, and the first thing
/// to do is to ask the rate limiter.
pub open spec fn start_spec(
    kind: ProductKind,
    universe_id: i64,
    operation: Operation,
    api_key: Seq<char>,
    data: ProductView,
) -> ExchangeView {
    ExchangeView {
        kind,
        universe_id,
        operation,
        api_key,
        data,
        phase: Phase::Mutate,
        attempts: 0,
        stage: StageView::AwaitToken,
    }
}

/// The address of the collection of a kind.
pub open spec fn collection_url(kind: ProductKind, universe_id: i64) -> Seq<char> {
    match kind {
        ProductKind::Product => product_url_spec(universe_id as int),
        ProductKind::Gamepass => gamepass_url_spec(universe_id as int),
    }
}

/// The address of one item of a kind.
pub open spec fn item_url(kind: ProductKind, universe_id: i64, id: i64) -> Seq<char> {
    match kind {
        ProductKind::Product => product_update_url_spec(universe_id as int, id as int),
        ProductKind::Gamepass => gamepass_update_url_spec(universe_id as int, id as int),
    }
}

/// The address at which one item of a kind is described.
pub open spec fn info_url(kind: ProductKind, universe_id: i64, id: i64) -> Seq<char> {
    match kind {
        ProductKind::Product => product_info_url_spec(universe_id as int, id as int),
        ProductKind::Gamepass => gamepass_info_url_spec(universe_id as int, id as int),
    }
}

/// The request of the current phase: a create posts the payload to the
/// collection; an update patches the item with the payload, then gets its
/// description.
pub open spec fn request_of(x: ExchangeView) -> RequestView {
    match x.operation {
        Operation::Create => RequestView {
            method: Method::Post,
            url: collection_url(x.kind, x.universe_id),
            api_key: x.api_key,
            data: Some(x.data),
        },
        Operation::Update { id } => match x.phase {
            Phase::Mutate => RequestView {
                method: Method::Patch,
                url: item_url(x.kind, x.universe_id, id),
                api_key: x.api_key,
                data: Some(x.data),
            },
            Phase::Fetch => RequestView {
                method: Method::Get,
                url: info_url(x.kind, x.universe_id, id),
                api_key: x.api_key,
                data: None,
            },
        },
    }
}

/// The action that the current stage calls for.
pub open spec fn pending_spec(x: ExchangeView) -> ActionView {
    match x.stage {
        StageView::AwaitToken => ActionView::PollLimiter,
        StageView::Waiting { millis } => ActionView::Sleep { millis },
        StageView::AwaitReply => ActionView::Send(request_of(x)),
        StageView::Done(info) => ActionView::Done(info),
        StageView::Failed(error) => ActionView::Fail(error),
    }
}

/// What the body of a successful reply says of an item of the given kind.
pub open spec fn decode_spec(kind: ProductKind, body: Seq<char>) -> Option<RemoteInfoView> {
    match kind {
        ProductKind::Product => product_info(body),
        ProductKind::Gamepass => gamepass_info(body),
    }
}

/// The pause after the given number of throttled attempts.
pub open spec fn backoff_millis(attempts: u32) -> u64 {
    (BACKOFF_STEP_MILLIS * attempts) as u64
}

/// Whether the change of an update has just been made, so that the fetch is
/// still to come.
pub open spec fn fetch_follows(x: ExchangeView) -> bool {
    x.operation is Update && x.phase is Mutate
}

/// The stage that a reply leads to.
///
/// "Too many requests" counts as one more throttled attempt: the fifth ends
/// the exchange, an earlier one leads to a pause that grows with the count.
/// Any other status outside the range of success ends the exchange at once.
/// Success ends it with the decoded body, or leads on to the fetch of an
/// update.
pub open spec fn on_reply_spec(x: ExchangeView, status: u16, body: Seq<char>) -> ExchangeView {
    if status == TOO_MANY_REQUESTS {
        if x.attempts + 1 >= MAX_ATTEMPTS {
            ExchangeView {
                stage: StageView::Failed(
                    RemoteErrorView::RateLimitExceeded { attempts: (x.attempts + 1) as u64 },
                ),
                ..x
            }
        } else {
            ExchangeView {
                attempts: (x.attempts + 1) as u32,
                stage: StageView::Waiting { millis: backoff_millis((x.attempts + 1) as u32) },
                ..x
            }
        }
    } else if !is_success_spec(status) {
        ExchangeView { stage: StageView::Failed(RemoteErrorView::Status { status, body }), ..x }
    } else if fetch_follows(x) {
        ExchangeView { phase: Phase::Fetch, attempts: 0, stage: StageView::AwaitToken, ..x }
    } else {
        match decode_spec(x.kind, body) {
            Some(info) => ExchangeView { stage: StageView::Done(info), ..x },
            None => ExchangeView {
                stage: StageView::Failed(RemoteErrorView::Decode { body }),
                ..x
            },
        }
    }
}

/// The exchange after an event. An event that the current stage does not wait
/// for changes nothing.
pub open spec fn step_spec(x: ExchangeView, event: EventView) -> ExchangeView {
    match (x.stage, event) {
        (StageView::AwaitToken, EventView::Token { granted }) => if granted {
            ExchangeView { stage: StageView::AwaitReply, ..x }
        } else {
            ExchangeView { stage: StageView::Waiting { millis: TOKEN_POLL_MILLIS }, ..x }
        },
        (StageView::Waiting { .. }, EventView::Slept) => ExchangeView {
            stage: StageView::AwaitToken,
            ..x
        },
        (StageView::AwaitReply, EventView::Reply { status, body }) => on_reply_spec(
            x,
            status,
            body,
        ),
        (StageView::AwaitReply, EventView::SendFailed { message }) => ExchangeView {
            stage: StageView::Failed(RemoteErrorView::Transport { message }),
            ..x
        },
        _ => x,
    }
}

impl Exchange {
    /// Begins an operation.
    pub fn start(
        kind: ProductKind,
        universe_id: i64,
        operation: Operation,
        api_key: &str,
        data: &Product,
    ) -> (exchange: Exchange)
        ensures
            exchange@ == start_spec(kind, universe_id, operation, api_key@, data@),
    {
        Exchange {
            kind,
            universe_id,
            operation,
            api_key: String::from_str(api_key),
            data: data.clone(),
            phase: Phase::Mutate,
            attempts: 0,
            stage: Stage::AwaitToken,
        }
    }

    /// The request of the current phase.
    pub fn request(&self) -> (request: Request)
        ensures
            request@ == request_of(self@),
    {
        match self.operation {
            Operation::Create => {
                let url = match self.kind {
                    ProductKind::Product => product_url(self.universe_id),
                    ProductKind::Gamepass => gamepass_url(self.universe_id),
                };
                Request {
                    method: Method::Post,
                    url,
                    api_key: self.api_key.clone(),
                    data: Some(self.data.clone()),
                }
            },
            Operation::Update { id } => match self.phase {
                Phase::Mutate => {
                    let url = match self.kind {
                        ProductKind::Product => product_update_url(self.universe_id, id),
                        ProductKind::Gamepass => gamepass_update_url(self.universe_id, id),
                    };
                    Request {
                        method: Method::Patch,
                        url,
                        api_key: self.api_key.clone(),
                        data: Some(self.data.clone()),
                    }
                },
                Phase::Fetch => {
                    let url = match self.kind {
                        ProductKind::Product => product_info_url(self.universe_id, id),
                        ProductKind::Gamepass => gamepass_info_url(self.universe_id, id),
                    };
                    Request { method: Method::Get, url, api_key: self.api_key.clone(), data: None }
                },
            },
        }
    }

    /// The action that the current stage calls for. Asking twice gives the
    /// same answer: nothing changes until an event is reported.
    pub fn pending(&self) -> (action: Action)
        ensures
            action@ == pending_spec(self@),
    {
        match &self.stage {
            Stage::AwaitToken => Action::PollLimiter,
            Stage::Waiting { millis } => Action::Sleep { millis: *millis },
            Stage::AwaitReply => Action::Send(self.request()),
            Stage::Done(info) => Action::Done(info.clone()),
            Stage::Failed(error) => Action::Fail(error.clone()),
        }
    }

    /// Whether the exchange has ended, in success or in failure.
    pub fn is_finished(&self) -> (finished: bool)
        ensures
            finished == (self@.stage is Done || self@.stage is Failed),
    {
        match &self.stage {
            Stage::Done(_) => true,
            Stage::Failed(_) => true,
            _ => false,
        }
    }

    fn decode(&self, body: &str) -> (info: Option<RemoteInfo>)
        ensures
            match info {
                Some(found) => decode_spec(self@.kind, body@) == Some(found@),
                None => decode_spec(self@.kind, body@) is None,
            },
    {
        match self.kind {
            ProductKind::Product => match decode_product(body) {
                Some(response) => Some(response.into_info()),
                None => None,
            },
            ProductKind::Gamepass => match decode_gamepass(body) {
                Some(response) => Some(response.into_info()),
                None => None,
            },
        }
    }

    /// Takes in the reply to the request of the current phase.
    fn on_reply(&mut self, status: u16, body: String)
        ensures
            final(self)@ == on_reply_spec(old(self)@, status, body@),
    {
        if status == TOO_MANY_REQUESTS {
            if self.attempts >= MAX_ATTEMPTS - 1 {
                self.stage = Stage::Failed(
                    RemoteError::RateLimitExceeded { attempts: self.attempts as u64 + 1 },
                );
            } else {
                self.attempts = self.attempts + 1;
                self.stage = Stage::Waiting { millis: BACKOFF_STEP_MILLIS * (self.attempts as u64) };
            }
        } else if !is_success(status) {
            self.stage = Stage::Failed(RemoteError::Status { status, body });
        } else {
            let fetch_next = match self.operation {
                Operation::Update { .. } => match self.phase {
                    Phase::Mutate => true,
                    Phase::Fetch => false,
                },
                Operation::Create => false,
            };
            if fetch_next {
                self.phase = Phase::Fetch;
                self.attempts = 0;
                self.stage = Stage::AwaitToken;
            } else {
                match self.decode(body.as_str()) {
                    Some(info) => {
                        self.stage = Stage::Done(info);
                    },
                    None => {
                        self.stage = Stage::Failed(RemoteError::Decode { body });
                    },
                }
            }
        }
    }

    /// Takes in what the driver reports and says what is to be done next.
    pub fn step(&mut self, event: Event) -> (action: Action)
        ensures
            final(self)@ == step_spec(old(self)@, event@),
            action@ == pending_spec(final(self)@),
    {
        match event {
            Event::Token { granted } => {
                if let Stage::AwaitToken = &self.stage {
                    if granted {
                        self.stage = Stage::AwaitReply;
                    } else {
                        self.stage = Stage::Waiting { millis: TOKEN_POLL_MILLIS };
                    }
                }
            },
            Event::Slept => {
                if let Stage::Waiting { .. } = &self.stage {
                    self.stage = Stage::AwaitToken;
                }
            },
            Event::Reply { status, body } => {
                if let Stage::AwaitReply = &self.stage {
                    self.on_reply(status, body);
                }
            },
            Event::SendFailed { message } => {
                if let Stage::AwaitReply = &self.stage {
                    self.stage = Stage::Failed(RemoteError::Transport { message });
                }
            },
        }
        self.pending()
    }
}

/// Begins the creation of a developer product.
pub fn create_product(universe_id: i64, api_key: &str, data: &Product) -> (exchange: Exchange)
    ensures
        exchange@ == start_spec(
            ProductKind::Product,
            universe_id,
            Operation::Create,
            api_key@,
            data@,
        ),
{
    Exchange::start(ProductKind::Product, universe_id, Operation::Create, api_key, data)
}

/// Begins the creation of a game pass.
pub fn create_gamepass(universe_id: i64, api_key: &str, data: &Product) -> (exchange: Exchange)
    ensures
        exchange@ == start_spec(
            ProductKind::Gamepass,
            universe_id,
            Operation::Create,
            api_key@,
            data@,
        ),
{
    Exchange::start(ProductKind::Gamepass, universe_id, Operation::Create, api_key, data)
}

/// Begins the update of the developer product with the given identifier.
pub fn update_product(universe_id: i64, id: i64, api_key: &str, data: &Product) -> (exchange:
    Exchange)
    ensures
        exchange@ == start_spec(
            ProductKind::Product,
            universe_id,
            Operation::Update { id },
            api_key@,
            data@,
        ),
{
    Exchange::start(ProductKind::Product, universe_id, Operation::Update { id }, api_key, data)
}

/// Begins the update of the game pass with the given identifier.
pub fn update_gamepass(universe_id: i64, id: i64, api_key: &str, data: &Product) -> (exchange:
    Exchange)
    ensures
        exchange@ == start_spec(
            ProductKind::Gamepass,
            universe_id,
            Operation::Update { id },
            api_key@,
            data@,
        ),
{
    Exchange::start(ProductKind::Gamepass, universe_id, Operation::Update { id }, api_key, data)
}

/// The exchange after a sequence of events, reported one after the other.
pub open spec fn replay(x: ExchangeView, events: Seq<EventView>) -> ExchangeView
    decreases events.len(),
{
    if events.len() == 0 {
        x
    } else {
        step_spec(replay(x, events.drop_last()), events.last())
    }
}

/// How many requests the driver was told to send in the course of a sequence
/// of events: one for each token that was granted while the exchange waited
/// for one.
pub open spec fn requests_sent(x: ExchangeView, events: Seq<EventView>) -> nat
    decreases events.len(),
{
    if events.len() == 0 {
        0
    } else {
        let before = replay(x, events.drop_last());
        let sent: nat = if before.stage is AwaitToken && events.last() == (EventView::Token {
            granted: true,
        }) {
            1
        } else {
            0
        };
        requests_sent(x, events.drop_last()) + sent
    }
}

/// A remote platform that answers every request with "too many requests",
/// and a transport that never fails.
pub open spec fn always_throttled(events: Seq<EventView>) -> bool {
    forall|i: int|
        0 <= i < events.len() ==> match #[trigger] events[i] {
            EventView::Reply { status, .. } => status == TOO_MANY_REQUESTS,
            EventView::SendFailed { .. } => false,
            _ => true,
        }
}

/// Against a remote platform that always answers "too many requests", an
/// exchange never succeeds and never sends more than five requests, however
/// the rate limiter behaves and whatever else is reported. If it fails, it has
/// sent exactly five requests, and the failure is that the rate limit was
/// exceeded after five attempts. Until then the number of requests sent is the
/// number of throttled attempts, and one more while a reply is awaited.
pub proof fn lemma_retry_cap(x: ExchangeView, events: Seq<EventView>)
    requires
        x.stage is AwaitToken,
        x.attempts == 0,
        always_throttled(events),
    ensures
        requests_sent(x, events) <= MAX_ATTEMPTS,
        !(replay(x, events).stage is Done),
        replay(x, events).stage is Failed ==> requests_sent(x, events) == MAX_ATTEMPTS && replay(
            x,
            events,
        ).stage == StageView::Failed(RemoteErrorView::RateLimitExceeded { attempts: 5 }),
        !(replay(x, events).stage is Failed) ==> replay(x, events).attempts < MAX_ATTEMPTS
            && requests_sent(x, events) == replay(x, events).attempts + (if replay(
            x,
            events,
        ).stage is AwaitReply {
            1nat
        } else {
            0nat
        }),
    decreases events.len(),
{
    if events.len() > 0 {
        let earlier = events.drop_last();
        assert forall|i: int| 0 <= i < earlier.len() implies match #[trigger] earlier[i] {
            EventView::Reply { status, .. } => status == TOO_MANY_REQUESTS,
            EventView::SendFailed { .. } => false,
            _ => true,
        } by {
            assert(earlier[i] == events[i]);
        }
        lemma_retry_cap(x, earlier);
    }
}

/// One round against a throttling remote platform: a token is granted, the
/// request is sent, and the reply is "too many requests". Before the fifth
/// such reply the exchange pauses, each time a second longer, and then asks
/// for a token again with one more attempt on record. The fifth ends it.
pub proof fn lemma_throttled_round(x: ExchangeView, body: Seq<char>)
    requires
        x.stage is AwaitToken,
        x.attempts < MAX_ATTEMPTS,
    ensures
        ({
            let sending = step_spec(x, EventView::Token { granted: true });
            let replied = step_spec(
                sending,
                EventView::Reply { status: TOO_MANY_REQUESTS, body },
            );
            let rested = step_spec(replied, EventView::Slept);
            &&& pending_spec(sending) == ActionView::Send(request_of(x))
            &&& x.attempts + 1 < MAX_ATTEMPTS ==> {
                &&& pending_spec(replied) == ActionView::Sleep {
                    millis: (1000 * (x.attempts + 1)) as u64,
                }
                &&& rested == ExchangeView { attempts: (x.attempts + 1) as u32, ..x }
            }
            &&& x.attempts + 1 == MAX_ATTEMPTS ==> pending_spec(replied) == ActionView::Fail(
                RemoteErrorView::RateLimitExceeded { attempts: 5 },
            )
        }),
{
}

} // verus!

//! Laws of signing in from a device.

use vstd::prelude::*;

use crate::device_auth::{
    DeviceAuths, DeviceStart, PendingDeviceAuth, PendingView, PinVerdict, PollContext, PollStep,
    StartStep, TokenReply,
};
use crate::http::{pairs, status_line, url_encoded, BodyView, Method, Reply, Request, Status};
use crate::json::{json_member, json_of_text, json_string, opt_text};
use crate::laws::scrobble::lemma_header;
use crate::media::SimklService;
use crate::settings::SimklUserConfig;
use crate::simkl::{
    SimklDeviceCodeResponse, SimklPinPollResponse, SimklTokenErrorResponse, SimklTokenResponse,
};
use crate::text::{cleaned, has_infix, lowercase, same_ignoring_ascii_case, trimmed};
use crate::time::Moment;

verus! {

/// A request of the OAuth 2.0 flow that carries a form.
pub open spec fn is_form(
    request: Request,
    url: Seq<char>,
    fields: Seq<(Seq<char>, Seq<char>)>,
) -> bool {
    &&& request.method == Method::POST
    &&& request.url@ == url
    &&& request.headers@.len() == 2
    &&& request.headers@[0].0@ == "User-Agent"@ && request.headers@[0].1@ == "remux-server/1.0"@
    &&& request.headers@[1].0@ == "Accept"@ && request.headers@[1].1@ == "application/json"@
    &&& request.body is Form
    &&& request.body->Form_0@.len() == fields.len()
    &&& forall|i: int|
        0 <= i < fields.len() ==> (#[trigger] request.body->Form_0@[i]).0@ == fields[i].0
            && request.body->Form_0@[i].1@ == fields[i].1
}

/// A request of the PIN flow.
pub open spec fn is_pin_query(request: Request, url: Seq<char>, client_id: Seq<char>) -> bool {
    &&& request.method == Method::GET
    &&& request.url@ == url
    &&& request.headers@.len() == 2
    &&& request.headers@[0].0@ == "simkl-api-key"@ && request.headers@[0].1@ == client_id
    &&& request.headers@[1].0@ == "Accept"@ && request.headers@[1].1@ == "application/json"@
    &&& request.body is Empty
}

pub(crate) proof fn lemma_is_form(request: Request, url: Seq<char>, fields: Seq<(Seq<char>, Seq<char>)>)
    requires
        request@.method == Method::POST,
        request@.url == url,
        request@.headers == seq![
            ("User-Agent"@, "remux-server/1.0"@),
            ("Accept"@, "application/json"@),
        ],
        request@.body == BodyView::Form(fields),
    ensures
        is_form(request, url, fields),
{
    assert(pairs(request.headers@).len() == 2);
    lemma_header(request.headers@, 0);
    lemma_header(request.headers@, 1);
    let form = request.body->Form_0@;
    assert(request.body is Form);
    assert(pairs(form) == fields);
    assert(pairs(form).len() == form.len());
    assert forall|i: int| 0 <= i < fields.len() implies (#[trigger] form[i]).0@ == fields[i].0
        && form[i].1@ == fields[i].1 by {
        lemma_header(form, i);
    }
}

proof fn lemma_is_pin_query(request: Request, url: Seq<char>, client_id: Seq<char>)
    requires
        request@ == crate::device_auth::pin_request(url, client_id),
    ensures
        is_pin_query(request, url, client_id),
{
    assert(pairs(request.headers@).len() == 2);
    lemma_header(request.headers@, 0);
    lemma_header(request.headers@, 1);
    assert(request@.body == BodyView::Empty);
}

/// A sign-in begins with the request for a device code, under the cleaned
/// client identifier, which must not be empty.
pub proof fn sign_in_begins_with_a_device_code(
    client_id: &str,
    redirect: Option<&str>,
    r: Result<(Request, DeviceStart), String>,
)
    requires
        call_ensures(SimklService::start_device_auth, (client_id, redirect), r),
    ensures
        r is Ok <==> cleaned(client_id@).len() > 0,
        r matches Ok(begun) ==> {
            &&& is_form(
                begun.0,
                "https://api.simkl.com"@ + "/oauth2/device"@,
                seq![
                    ("client_id"@, cleaned(client_id@)),
                    ("scope"@, "media:read media:write"@),
                ],
            )
            &&& begun.1.spec_client_id() == cleaned(client_id@)
            &&& redirect is None ==> begun.1.spec_redirect() is None
            &&& redirect matches Some(uri) ==> begun.1.spec_redirect() == Some(uri@)
        },
        r matches Err(e) ==> e@
            == "Simkl Client ID is empty. Please configure your Client ID in Settings > Simkl."@,
{
    if let Ok(begun) = r {
        lemma_is_form(
            begun.0,
            "https://api.simkl.com"@ + "/oauth2/device"@,
            seq![("client_id"@, cleaned(client_id@)), ("scope"@, "media:read media:write"@)],
        );
    }
}

/// Two offers say the same.
pub open spec fn same_offer(a: SimklDeviceCodeResponse, b: SimklDeviceCodeResponse) -> bool {
    &&& opt_text(a.device_code) == opt_text(b.device_code)
    &&& a.user_code@ == b.user_code@
    &&& a.verification_uri@ == b.verification_uri@
    &&& opt_text(a.verification_uri_complete) == opt_text(b.verification_uri_complete)
    &&& a.expires_in == b.expires_in
    &&& a.interval == b.interval
}

proof fn lemma_same_offer(a: SimklDeviceCodeResponse, b: SimklDeviceCodeResponse)
    requires
        a@ == b@,
    ensures
        same_offer(a, b),
{
    assert(a@.device_code == opt_text(a.device_code) && b@.device_code == opt_text(b.device_code));
    assert(a@.user_code == a.user_code@ && b@.user_code == b.user_code@);
    assert(a@.verification_uri == a.verification_uri@ && b@.verification_uri
        == b.verification_uri@);
    assert(a@.expires_in == a.expires_in && a@.interval == a.interval);
}

/// The text under a key of a JSON document.
pub open spec fn text_under(body: Seq<char>, key: Seq<char>) -> Option<Seq<char>> {
    match json_of_text(body) {
        Some(v) => match json_member(v, key) {
            Some(member) => json_string(member),
            None => None,
        },
        None => None,
    }
}

/// An offer that Simkl made is handed on with every field as it was sent, in
/// either flow.
pub proof fn offers_are_handed_on_whole(
    start: DeviceStart,
    status: Status,
    offer: SimklDeviceCodeResponse,
    body: String,
    by_code: StartStep,
    by_pin: StartStep,
)
    requires
        200 <= status.spec_code() < 300,
        call_ensures(
            SimklService::device_code_reply,
            (start, Reply::Answered { status, parsed: Some(offer), body }),
            by_code,
        ),
        call_ensures(
            SimklService::pin_offer_reply,
            (Reply::Answered { status, parsed: Some(offer), body },),
            by_pin,
        ),
    ensures
        by_code is Offer && same_offer(by_code->Offer_0, offer),
        by_pin is Offer && same_offer(by_pin->Offer_0, offer),
{
    lemma_same_offer(by_code->Offer_0, offer);
    lemma_same_offer(by_pin->Offer_0, offer);
}

/// What is not an offer is refused with its reason, or leads to the PIN flow:
/// that exactly on a status of 401 with a body that says so.
pub proof fn refused_device_codes_are_explained(
    start: DeviceStart,
    reply: Reply<SimklDeviceCodeResponse>,
    r: StartStep,
)
    requires
        call_ensures(SimklService::device_code_reply, (start, reply), r),
    ensures
        reply is Unreachable ==> r is Fail && r->Fail_0@ == "Failed to connect to Simkl API"@,
        reply matches Reply::Answered { status, parsed, body } ==> {
            let fine = 200 <= status.spec_code() < 300;
            let unknown = status.spec_code() == 401 && (has_infix(
                body@,
                "not enabled for OAuth 2.0"@,
            ) || has_infix(body@, "invalid_client"@));
            let url = "https://api.simkl.com"@ + "/oauth/pin?client_id="@ + start.spec_client_id();
            &&& r is Offer <==> fine && parsed is Some
            &&& r is AskForPin <==> unknown
            &&& fine && parsed is None ==> r->Fail_0@
                == "Failed to parse Simkl V2 device code response"@
            &&& unknown && (start.spec_redirect() is None || trimmed(
                start.spec_redirect()->0,
            ).len() == 0) ==> is_pin_query(r->AskForPin_0, url, start.spec_client_id())
            &&& unknown && start.spec_redirect() is Some && trimmed(start.spec_redirect()->0).len()
                > 0 ==> is_pin_query(
                r->AskForPin_0,
                url + "&redirect="@ + url_encoded(trimmed(start.spec_redirect()->0)),
                start.spec_client_id(),
            )
            &&& !fine && !unknown ==> {
                let description = text_under(body@, "error_description"@);
                let message = text_under(body@, "message"@);
                &&& description is Some ==> r->Fail_0@ == "Simkl API: "@ + description->0
                &&& description is None && message is Some ==> r->Fail_0@ == "Simkl API: "@
                    + message->0
                &&& description is None && message is None ==> r->Fail_0@
                    == "Simkl device authorization failed ("@ + status_line(status.spec_code())
                    + "): "@ + body@
            }
        },
{
    if let StartStep::AskForPin(request) = r {
        lemma_is_pin_query(
            request,
            crate::device_auth::pin_url(start.spec_client_id(), start.spec_redirect()),
            start.spec_client_id(),
        );
    }
}

/// A refused PIN is explained by the message of Simkl, or by the reply.
pub proof fn refused_pins_are_explained(reply: Reply<SimklDeviceCodeResponse>, r: StartStep)
    requires
        call_ensures(SimklService::pin_offer_reply, (reply,), r),
    ensures
        reply is Unreachable ==> r is Fail && r->Fail_0@ == "Failed to connect to Simkl API"@,
        reply matches Reply::Answered { status, parsed, body } ==> {
            let fine = 200 <= status.spec_code() < 300;
            let message = text_under(body@, "message"@);
            &&& r is Offer <==> fine && parsed is Some
            &&& !(r is Offer) ==> r is Fail
            &&& fine && parsed is None ==> r->Fail_0@
                == "Failed to parse Simkl device code response"@
            &&& !fine && message is Some ==> r->Fail_0@ == "Simkl API: "@ + message->0
            &&& !fine && message is None ==> r->Fail_0@ == "Simkl device authorization failed ("@
                + status_line(status.spec_code()) + "): "@ + body@
        },
{
}

/// A refusal shows the reason or, without one, the reply.
pub proof fn refusals_show_the_reason(reason: Option<String>, status: Status, body: &str, r: String)
    requires
        call_ensures(SimklService::refusal, (reason, status, body), r),
    ensures
        reason matches Some(text) ==> r@ == "Simkl API: "@ + text@,
        reason is None ==> r@ == "Simkl device authorization failed ("@ + status_line(
            status.spec_code(),
        ) + "): "@ + body@,
{
}

/// `full` is `offer` with the page to visit where that is missing, and the
/// page with the code entered where that is missing and there is a code; all
/// else stays.
pub open spec fn is_completion(
    offer: SimklDeviceCodeResponse,
    full: SimklDeviceCodeResponse,
) -> bool {
    &&& opt_text(full.device_code) == opt_text(offer.device_code)
    &&& full.user_code@ == offer.user_code@
    &&& full.expires_in == offer.expires_in
    &&& full.interval == offer.interval
    &&& offer.verification_uri@.len() > 0 ==> full.verification_uri@ == offer.verification_uri@
    &&& offer.verification_uri@.len() == 0 ==> full.verification_uri@ == "https://simkl.com/pin"@
    &&& offer.verification_uri_complete is Some || offer.user_code@.len() == 0 ==> opt_text(
        full.verification_uri_complete,
    ) == opt_text(offer.verification_uri_complete)
    &&& offer.verification_uri_complete is None && offer.user_code@.len() > 0 ==> opt_text(
        full.verification_uri_complete,
    ) == Some(full.verification_uri@ + "?user_code="@ + offer.user_code@)
}

proof fn lemma_is_completion(offer: SimklDeviceCodeResponse, full: SimklDeviceCodeResponse)
    requires
        full@ == crate::device_auth::completed(offer@),
    ensures
        is_completion(offer, full),
{
    assert(full@.device_code == opt_text(full.device_code));
    assert(full@.user_code == full.user_code@);
    assert(full@.verification_uri == full.verification_uri@);
    assert(full@.verification_uri_complete == opt_text(full.verification_uri_complete));
    assert(full@.expires_in == full.expires_in && full@.interval == full.interval);
}

/// Offers are completed with what is missing, and with nothing else.
pub proof fn offers_are_completed(offer: SimklDeviceCodeResponse, full: SimklDeviceCodeResponse)
    requires
        call_ensures(SimklService::complete_offer, (offer,), full),
    ensures
        is_completion(offer, full),
{
    lemma_is_completion(offer, full);
}

/// A sign-in that begins takes the place of an earlier one of that user, and
/// holds what the completed offer says; it lasts as long as offered, but half
/// a minute at least, and is polled as often as offered, but every five
/// seconds at most.
pub proof fn sign_ins_hold_their_offer(
    auths: &mut DeviceAuths,
    user_id: u128,
    offer: SimklDeviceCodeResponse,
    now: Moment,
    full: SimklDeviceCodeResponse,
)
    requires
        call_ensures(DeviceAuths::begin, (auths, user_id, offer, now), full),
    ensures
        is_completion(offer, full),
        final(auths)@.remove(user_id) == old(auths)@.remove(user_id),
        final(auths)@.contains_key(user_id),
        ({
            let p = final(auths)@[user_id];
            &&& p.device_code == opt_text(full.device_code)
            &&& p.user_code == full.user_code@
            &&& p.verification_uri == full.verification_uri@
            &&& p.verification_uri_complete == opt_text(full.verification_uri_complete)
            &&& p.last_polled_at is None
            &&& offer.expires_in >= 30 ==> p.expires_at == now.nanos + offer.expires_in
                * 1_000_000_000
            &&& offer.expires_in < 30 ==> p.expires_at == now.nanos + 30_000_000_000
            &&& offer.interval >= 5 ==> p.interval == offer.interval
            &&& offer.interval < 5 ==> p.interval == 5
        }),
{
    lemma_is_completion(offer, full);
    assert(full@.device_code == opt_text(full.device_code));
    assert(full@.verification_uri_complete == opt_text(full.verification_uri_complete));
    assert(final(auths)@.remove(user_id) =~= old(auths)@.remove(user_id));
    assert(offer.expires_in * 1_000_000_000 <= u64::MAX * 1_000_000_000) by (nonlinear_arith)
        requires
            offer.expires_in <= u64::MAX,
    ;
}

/// What a poll told.
pub open spec fn tells(step: PollStep, status: Seq<char>, message: Option<Seq<char>>) -> bool {
    step is Done && step->Done_0.status@ == status && opt_text(step->Done_0.message) == message
}

proof fn lemma_tells(step: PollStep, status: Seq<char>, message: Option<Seq<char>>)
    requires
        step@ == crate::device_auth::PollStepView::Done(
            crate::device_auth::PollResultView { status, message },
        ),
    ensures
        tells(step, status, message),
{
    assert(step is Done);
    let result = step->Done_0;
    assert(result@.status == result.status@);
    assert(result@.message == opt_text(result.message));
}

/// A context is of this user, client and code.
pub open spec fn is_context(
    context: PollContext,
    user_id: u128,
    client_id: Seq<char>,
    user_code: Seq<char>,
) -> bool {
    context.spec_user() == user_id && context.spec_client_id() == client_id
        && context.spec_user_code() == user_code
}

/// A poll tells of a sign-in that is not there or has expired, and forgets
/// that; leaves one alone that was polled less than its interval ago; and else
/// notes the time and asks, with the device code where there is one, and with
/// the user code where there is none. Other sign-ins are left alone.
pub proof fn polls_ask_when_it_is_time(
    auths: &mut DeviceAuths,
    client_id: &str,
    user_id: u128,
    now: Moment,
    r: PollStep,
)
    requires
        call_ensures(DeviceAuths::poll_device_auth, (auths, client_id, user_id, now), r),
    ensures
        final(auths)@.remove(user_id) == old(auths)@.remove(user_id),
        !old(auths)@.contains_key(user_id) ==> final(auths)@ == old(auths)@ && tells(
            r,
            "expired"@,
            Some("No active login session found. Please start again."@),
        ),
        old(auths)@.contains_key(user_id) ==> {
            let p = old(auths)@[user_id];
            let expired = now.nanos >= p.expires_at;
            let early = p.last_polled_at is Some && p.interval > 0 && now.nanos
                < p.last_polled_at->0.nanos + p.interval * 1_000_000_000;
            &&& expired ==> !final(auths)@.contains_key(user_id) && tells(
                r,
                "expired"@,
                Some("Authorization code expired. Please start again."@),
            )
            &&& !expired && early ==> final(auths)@ == old(auths)@ && tells(r, "pending"@, None)
            &&& !expired && !early ==> {
                let q = final(auths)@[user_id];
                &&& final(auths)@.contains_key(user_id)
                &&& q.last_polled_at == Some(now)
                &&& q.device_code == p.device_code && q.user_code == p.user_code
                &&& q.expires_at == p.expires_at && q.interval == p.interval
                &&& q.verification_uri == p.verification_uri
                &&& q.verification_uri_complete == p.verification_uri_complete
                &&& p.device_code matches Some(code) ==> {
                    &&& r is AskForToken
                    &&& is_form(
                        r->AskForToken_0,
                        "https://api.simkl.com"@ + "/oauth2/token"@,
                        seq![
                            ("grant_type"@, "urn:ietf:params:oauth:grant-type:device_code"@),
                            ("client_id"@, cleaned(client_id@)),
                            ("device_code"@, code),
                        ],
                    )
                    &&& is_context(r->AskForToken_1, user_id, cleaned(client_id@), p.user_code)
                }
                &&& p.device_code is None ==> {
                    &&& r is AskForPin
                    &&& is_pin_query(
                        r->AskForPin_0,
                        "https://api.simkl.com"@ + "/oauth/pin/"@ + p.user_code + "?client_id="@
                            + cleaned(client_id@),
                        cleaned(client_id@),
                    )
                    &&& is_context(r->AskForPin_1, user_id, cleaned(client_id@), p.user_code)
                }
            }
        },
{
    assert(final(auths)@.remove(user_id) =~= old(auths)@.remove(user_id));
    if let PollStep::Done(result) = r {
        lemma_tells(r, result.status@, opt_text(result.message));
        assert(r@ == crate::device_auth::PollStepView::Done(result@));
        assert(result@.status == result.status@ && result@.message == opt_text(result.message));
    }
    if let PollStep::AskForToken(request, _) = r {
        let code = old(auths)@[user_id].device_code->0;
        assert(r@ == crate::device_auth::PollStepView::AskForToken(request@));
        lemma_is_form(
            request,
            "https://api.simkl.com"@ + "/oauth2/token"@,
            seq![
                ("grant_type"@, "urn:ietf:params:oauth:grant-type:device_code"@),
                ("client_id"@, cleaned(client_id@)),
                ("device_code"@, code),
            ],
        );
    }
    if let PollStep::AskForPin(request, _) = r {
        assert(r@ == crate::device_auth::PollStepView::AskForPin(request@));
        lemma_is_pin_query(
            request,
            "https://api.simkl.com"@ + "/oauth/pin/"@ + old(auths)@[user_id].user_code
                + "?client_id="@ + cleaned(client_id@),
            cleaned(client_id@),
        );
    }
}

/// A sign-in that Simkl offered a device code for asks for its token with that
/// code on its first poll within half a minute; one without asks for the state
/// of its PIN.
pub proof fn offered_codes_are_redeemed(
    start: DeviceStart,
    status: Status,
    offer: SimklDeviceCodeResponse,
    body: String,
    step: StartStep,
    auths: &mut DeviceAuths,
    later: &mut DeviceAuths,
    user_id: u128,
    begun: Moment,
    full: SimklDeviceCodeResponse,
    client_id: &str,
    now: Moment,
    r: PollStep,
)
    requires
        200 <= status.spec_code() < 300,
        call_ensures(
            SimklService::device_code_reply,
            (start, Reply::Answered { status, parsed: Some(offer), body }),
            step,
        ),
        call_ensures(DeviceAuths::begin, (auths, user_id, step->Offer_0, begun), full),
        old(later)@ == final(auths)@,
        call_ensures(DeviceAuths::poll_device_auth, (later, client_id, user_id, now), r),
        now.nanos < begun.nanos + 30_000_000_000,
    ensures
        offer.device_code matches Some(code) ==> r is AskForToken && is_form(
            r->AskForToken_0,
            "https://api.simkl.com"@ + "/oauth2/token"@,
            seq![
                ("grant_type"@, "urn:ietf:params:oauth:grant-type:device_code"@),
                ("client_id"@, cleaned(client_id@)),
                ("device_code"@, code@),
            ],
        ),
        offer.device_code is None ==> r is AskForPin && is_pin_query(
            r->AskForPin_0,
            "https://api.simkl.com"@ + "/oauth/pin/"@ + offer.user_code@ + "?client_id="@ + cleaned(
                client_id@,
            ),
            cleaned(client_id@),
        ),
{
    lemma_same_offer(step->Offer_0, offer);
    sign_ins_hold_their_offer(auths, user_id, step->Offer_0, begun, full);
    polls_ask_when_it_is_time(later, client_id, user_id, now, r);
    let sent = step->Offer_0;
    if sent.expires_in >= 30 {
        assert(30_000_000_000 <= sent.expires_in * 1_000_000_000) by (nonlinear_arith)
            requires
                sent.expires_in >= 30,
        ;
    }
}

/// The interval of a sign-in is five seconds longer, as far as it can be, and
/// nothing else has changed.
pub open spec fn is_slowed(
    before: Map<u128, PendingView>,
    after: Map<u128, PendingView>,
    user_id: u128,
) -> bool {
    &&& after.dom() == before.dom()
    &&& after.remove(user_id) == before.remove(user_id)
    &&& before.contains_key(user_id) ==> {
        let p = before[user_id];
        let q = after[user_id];
        &&& p.interval <= u64::MAX - 5 ==> q.interval == p.interval + 5
        &&& p.interval > u64::MAX - 5 ==> q.interval == u64::MAX
        &&& q.device_code == p.device_code && q.user_code == p.user_code
        &&& q.expires_at == p.expires_at && q.last_polled_at == p.last_polled_at
        &&& q.verification_uri == p.verification_uri
        &&& q.verification_uri_complete == p.verification_uri_complete
    }
}

proof fn lemma_is_slowed(before: Map<u128, PendingView>, user_id: u128)
    ensures
        is_slowed(before, crate::device_auth::slowed_down(before, user_id), user_id),
{
    let after = crate::device_auth::slowed_down(before, user_id);
    assert(after.dom() =~= before.dom());
    assert(after.remove(user_id) =~= before.remove(user_id));
}

/// A token that was granted is handed on as it is, and an empty one sends the
/// poll on to the PIN; either way the sign-in goes on.
pub proof fn granted_tokens_are_handed_on(
    auths: &mut DeviceAuths,
    context: PollContext,
    status: Status,
    token: Option<SimklTokenResponse>,
    error: Option<SimklTokenErrorResponse>,
    body: String,
    r: PollStep,
)
    requires
        200 <= status.spec_code() < 300,
        call_ensures(
            DeviceAuths::token_reply,
            (auths, context, TokenReply::Answered { status, token, error, body }),
            r,
        ),
    ensures
        final(auths)@ == old(auths)@,
        token is None ==> r is Fail && r->Fail_0@ == "Failed to parse Simkl token response"@,
        token matches Some(t) ==> {
            &&& t.access_token@.len() > 0 ==> {
                &&& r is SaveToken
                &&& r->SaveToken_0@ == t.access_token@
                &&& is_context(
                    r->SaveToken_1,
                    context.spec_user(),
                    context.spec_client_id(),
                    context.spec_user_code(),
                )
            }
            &&& t.access_token@.len() == 0 ==> {
                &&& r is AskForPin
                &&& is_pin_query(
                    r->AskForPin_0,
                    "https://api.simkl.com"@ + "/oauth/pin/"@ + context.spec_user_code()
                        + "?client_id="@ + context.spec_client_id(),
                    context.spec_client_id(),
                )
                &&& is_context(
                    r->AskForPin_1,
                    context.spec_user(),
                    context.spec_client_id(),
                    context.spec_user_code(),
                )
            }
        },
{
    if let PollStep::AskForPin(request, _) = r {
        assert(r@ == crate::device_auth::PollStepView::AskForPin(request@));
        lemma_is_pin_query(
            request,
            "https://api.simkl.com"@ + "/oauth/pin/"@ + context.spec_user_code() + "?client_id="@
                + context.spec_client_id(),
            context.spec_client_id(),
        );
    }
    if let PollStep::SaveToken(saved, _) = r {
        assert(r@ == crate::device_auth::PollStepView::SaveToken(saved@));
    }
    if let PollStep::Fail(message) = r {
        assert(r@ == crate::device_auth::PollStepView::Fail(message@));
    }
}

/// A token that was not granted is told by its reason: pending leaves the
/// sign-in alone, slowing down makes it wait longer, and any other reason ends
/// it, as does a reply that makes no sense. Other sign-ins are left alone.
pub proof fn refused_tokens_are_told_apart(
    auths: &mut DeviceAuths,
    context: PollContext,
    status: Status,
    token: Option<SimklTokenResponse>,
    error: Option<SimklTokenErrorResponse>,
    body: String,
    r: PollStep,
)
    requires
        !(200 <= status.spec_code() < 300),
        call_ensures(
            DeviceAuths::token_reply,
            (auths, context, TokenReply::Answered { status, token, error, body }),
            r,
        ),
    ensures
        ({
            let user = context.spec_user();
            let before = old(auths)@;
            let after = final(auths)@;
            let gone = after == before.remove(user);
            &&& status.spec_code() == 400 ==> (error matches Some(e) ==> {
                let pending = e.error@ == "authorization_pending"@;
                let slow = !pending && e.error@ == "slow_down"@;
                let expired = !pending && !slow && e.error@ == "expired_token"@;
                &&& pending ==> after == before && tells(r, "pending"@, None)
                &&& slow ==> is_slowed(before, after, user) && tells(r, "pending"@, None)
                &&& expired ==> gone && tells(
                    r,
                    "expired"@,
                    Some("Authorization code expired. Please start again."@),
                )
                &&& !pending && !slow && !expired ==> gone && tells(
                    r,
                    "error"@,
                    Some(
                        if e.error_description is Some {
                            e.error_description->0@
                        } else {
                            e.error@
                        },
                    ),
                )
            })
            &&& status.spec_code() == 400 && error is None ==> gone && tells(
                r,
                "error"@,
                Some("Simkl API error (400): "@ + body@),
            )
            &&& status.spec_code() != 400 ==> gone && tells(
                r,
                "error"@,
                Some("Simkl API error ("@ + status_line(status.spec_code()) + "): "@ + body@),
            )
        }),
{
    lemma_is_slowed(old(auths)@, context.spec_user());
    if let PollStep::Done(result) = r {
        assert(r@ == crate::device_auth::PollStepView::Done(result@));
        assert(result@.status == result.status@ && result@.message == opt_text(result.message));
    }
}

/// Where Simkl cannot be reached the poll fails, and the sign-in goes on.
pub proof fn unreachable_polls_change_nothing(
    by_token: &mut DeviceAuths,
    by_pin: &mut DeviceAuths,
    context: PollContext,
    of_token: PollStep,
    of_pin: PollStep,
)
    requires
        call_ensures(
            DeviceAuths::token_reply,
            (by_token, context, TokenReply::Unreachable),
            of_token,
        ),
        call_ensures(DeviceAuths::pin_reply, (by_pin, context, Reply::Unreachable), of_pin),
    ensures
        final(by_token)@ == old(by_token)@,
        final(by_pin)@ == old(by_pin)@,
        of_token is Fail && of_token->Fail_0@ == "Failed to poll Simkl token endpoint"@,
        of_pin is Fail && of_pin->Fail_0@ == "Failed to poll Simkl PIN endpoint"@,
{
    assert(of_token@ == crate::device_auth::PollStepView::Fail(of_token->Fail_0@));
    assert(of_pin@ == crate::device_auth::PollStepView::Fail(of_pin->Fail_0@));
}

/// A PIN is approved exactly if Simkl says so, in letters of either case, and
/// sends a token that is not empty, which is handed on; else the message
/// decides: pending, too often, or over.
pub proof fn pins_are_approved_or_told_apart(
    auths: &mut DeviceAuths,
    context: PollContext,
    status: Status,
    state: Option<SimklPinPollResponse>,
    body: String,
    r: PollStep,
)
    requires
        200 <= status.spec_code() < 300,
        call_ensures(
            DeviceAuths::pin_reply,
            (auths, context, Reply::Answered { status, parsed: state, body }),
            r,
        ),
    ensures
        ({
            let user = context.spec_user();
            let before = old(auths)@;
            let after = final(auths)@;
            &&& state is None ==> after == before && r is Fail && r->Fail_0@
                == "Failed to parse Simkl PIN poll response"@
            &&& state matches Some(s) ==> {
                let approved = same_ignoring_ascii_case(s.result@, "OK"@) && s.access_token is Some
                    && s.access_token->0@.len() > 0;
                let message = if s.message is Some {
                    s.message->0@
                } else {
                    seq![]
                };
                let pending = has_infix(lowercase(message), "pending"@);
                let slow = has_infix(lowercase(message), "slow"@);
                &&& r is SaveToken <==> approved
                &&& approved ==> {
                    &&& after == before
                    &&& r->SaveToken_0@ == s.access_token->0@
                    &&& is_context(
                        r->SaveToken_1,
                        user,
                        context.spec_client_id(),
                        context.spec_user_code(),
                    )
                }
                &&& !approved && pending ==> after == before && tells(r, "pending"@, None)
                &&& !approved && !pending && slow ==> is_slowed(before, after, user) && tells(
                    r,
                    "pending"@,
                    None,
                )
                &&& !approved && !pending && !slow ==> after == before.remove(user) && tells(
                    r,
                    "expired"@,
                    Some(
                        if message.len() == 0 {
                            "Authorization code expired or invalid."@
                        } else {
                            message
                        },
                    ),
                )
            }
        }),
{
    lemma_is_slowed(old(auths)@, context.spec_user());
    if let PollStep::Done(result) = r {
        assert(r@ == crate::device_auth::PollStepView::Done(result@));
        assert(result@.status == result.status@ && result@.message == opt_text(result.message));
    }
    if let PollStep::SaveToken(saved, _) = r {
        assert(r@ == crate::device_auth::PollStepView::SaveToken(saved@));
    }
    if let PollStep::Fail(message) = r {
        assert(r@ == crate::device_auth::PollStepView::Fail(message@));
    }
}

/// A PIN that Simkl does not know is over, and so is one that it fails on.
pub proof fn failed_pins_are_over(
    auths: &mut DeviceAuths,
    context: PollContext,
    status: Status,
    state: Option<SimklPinPollResponse>,
    body: String,
    r: PollStep,
)
    requires
        !(200 <= status.spec_code() < 300),
        call_ensures(
            DeviceAuths::pin_reply,
            (auths, context, Reply::Answered { status, parsed: state, body }),
            r,
        ),
    ensures
        final(auths)@ == old(auths)@.remove(context.spec_user()),
        status.spec_code() == 400 || status.spec_code() == 404 ==> tells(
            r,
            "expired"@,
            Some(
                "Simkl authorization error ("@ + status_line(status.spec_code()) + "): "@ + body@,
            ),
        ),
        status.spec_code() != 400 && status.spec_code() != 404 ==> tells(
            r,
            "error"@,
            Some("Simkl API error ("@ + status_line(status.spec_code()) + "): "@ + body@),
        ),
{
    if let PollStep::Done(result) = r {
        assert(r@ == crate::device_auth::PollStepView::Done(result@));
        assert(result@.status == result.status@ && result@.message == opt_text(result.message));
    }
}

/// A message in small letters is about waiting before it is about polling too
/// often, and else about the end; what it is about decides what is done.
pub proof fn messages_decide(
    lowered: &str,
    verdict: PinVerdict,
    auths: &mut DeviceAuths,
    user_id: u128,
    message: String,
    about: PinVerdict,
    r: PollStep,
)
    requires
        call_ensures(DeviceAuths::pin_verdict, (lowered,), verdict),
        call_ensures(DeviceAuths::pin_message, (auths, user_id, message, about), r),
    ensures
        verdict is Pending <==> has_infix(lowered@, "pending"@),
        verdict is SlowDown <==> !has_infix(lowered@, "pending"@) && has_infix(lowered@, "slow"@),
        about is Pending ==> final(auths)@ == old(auths)@ && tells(r, "pending"@, None),
        about is SlowDown ==> is_slowed(old(auths)@, final(auths)@, user_id) && tells(
            r,
            "pending"@,
            None,
        ),
        about is Ended ==> final(auths)@ == old(auths)@.remove(user_id) && tells(
            r,
            "expired"@,
            Some(
                if message@.len() == 0 {
                    "Authorization code expired or invalid."@
                } else {
                    message@
                },
            ),
        ),
{
    lemma_is_slowed(old(auths)@, user_id);
    if let PollStep::Done(result) = r {
        assert(r@ == crate::device_auth::PollStepView::Done(result@));
        assert(result@.status == result.status@ && result@.message == opt_text(result.message));
    }
}

/// Once the token is stored the sign-in is over, and told as a success.
pub proof fn stored_tokens_end_the_sign_in(
    auths: &mut DeviceAuths,
    context: PollContext,
    r: PollStep,
)
    requires
        call_ensures(DeviceAuths::token_saved, (auths, context), r),
    ensures
        final(auths)@ == old(auths)@.remove(context.spec_user()),
        tells(r, "success"@, Some("Connected successfully to Simkl!"@)),
{
    if let PollStep::Done(result) = r {
        assert(r@ == crate::device_auth::PollStepView::Done(result@));
        assert(result@.status == result.status@ && result@.message == opt_text(result.message));
    }
}

/// Signing in switches scrobbling on and stores the token; whether sessions
/// are taken over stays, and is off for a user of whom nothing was stored.
pub proof fn signing_in_stores_the_token(
    existing: SimklUserConfig,
    token: String,
    r: SimklUserConfig,
    of_none: SimklUserConfig,
)
    requires
        call_ensures(SimklService::approved_config, (Some(existing), token), r),
        call_ensures(SimklService::approved_config, (None, token), of_none),
    ensures
        r.enabled && of_none.enabled,
        r.user_token@ == token@ && of_none.user_token@ == token@,
        r.sync_continue_watching == existing.sync_continue_watching,
        !of_none.sync_continue_watching,
{
    assert(r@.user_token == r.user_token@);
    assert(of_none@.user_token == of_none.user_token@);
}

/// At first nobody is signing in; and a sign-in that waits is shown as it is.
pub proof fn waiting_sign_ins_are_shown(
    fresh: DeviceAuths,
    of_fresh: Option<PendingDeviceAuth>,
    auths: &DeviceAuths,
    user_id: u128,
    r: Option<PendingDeviceAuth>,
)
    requires
        call_ensures(DeviceAuths::new, (), fresh),
        call_ensures(DeviceAuths::session, (&fresh, user_id), of_fresh),
        call_ensures(DeviceAuths::session, (auths, user_id), r),
    ensures
        of_fresh is None,
        r is Some <==> auths@.contains_key(user_id),
        r matches Some(p) ==> {
            let q = auths@[user_id];
            &&& opt_text(p.device_code) == q.device_code
            &&& p.user_code@ == q.user_code
            &&& p.verification_uri@ == q.verification_uri
            &&& opt_text(p.verification_uri_complete) == q.verification_uri_complete
            &&& p.expires_at == q.expires_at
            &&& p.interval == q.interval
            &&& p.last_polled_at == q.last_polled_at
        },
{
    if let Some(p) = r {
        assert(p@.user_code == p.user_code@);
        assert(p@.device_code == opt_text(p.device_code));
    }
}

} // verus!

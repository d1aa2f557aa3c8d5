//! The pure part of the server-to-server bridge: URL handling, the errors it
//! reports, and the ActivityPub and WebFinger documents it serves.

use vstd::prelude::*;
use crate::coordinator::{field_value, AgentApProfile};
use crate::entries::{
    MewFederationState, RemoteActorRef, RemoteFollower, RemoteInteraction, RemoteInteractionType,
};
use crate::hashes::{ActionHash, AgentPubKey, Timestamp};
use crate::text::{
    contains_str, copy_opt_string, copy_string, has_substring, join2, join3, join4, str_equal,
};

verus! {

/// The parts of a parsed URL that the bridge reads.
#[derive(Clone, Debug, PartialEq, Eq)]
pub struct UrlParts {
    /// The host, when the URL has one.
    pub host: Option<String>,
    /// The path split at `/` after its leading `/`, when the path has one.
    pub path_segments: Option<Vec<String>>,
}

/// `UrlParts` as plain sequences.
pub ghost struct UrlPartsView {
    pub host: Option<Seq<char>>,
    pub path_segments: Option<Seq<Seq<char>>>,
}

impl View for UrlParts {
    type V = UrlPartsView;

    open spec fn view(&self) -> UrlPartsView {
        UrlPartsView { host: self.host.deep_view(), path_segments: self.path_segments.deep_view() }
    }
}

/// A URL parse result as plain values: the parts, or the error's text.
pub open spec fn parse_view(r: Result<UrlParts, String>) -> Result<UrlPartsView, Seq<char>> {
    match r {
        Ok(p) => Ok(p@),
        Err(e) => Err(e@),
    }
}

/// What `url::Url::parse` gives for a text: the parts the bridge reads, or
/// the text of the parse error.
pub uninterp spec fn url_parse_result(text: Seq<char>) -> Result<UrlPartsView, Seq<char>>;

/// Calls `url::Url::parse` and reads `host_str` and `path_segments` of the
/// result, or the `Display` text of the error. A text without a `:` has no
/// scheme, and the parser refuses it as a relative URL without a base.
#[verifier::external_body]
fn parse_url(text: &str) -> (res: Result<UrlParts, String>)
    ensures
        parse_view(res) == url_parse_result(text@),
        res is Err || text@.contains(':'),
        res matches Err(e) ==> (e@ == "relative URL without a base"@ || text@.contains(':')),
{
    match url::Url::parse(text) {
        Ok(url) => Ok(
            UrlParts {
                host: url.host_str().map(String::from),
                path_segments: url.path_segments().map(|segments| segments.map(String::from).collect()),
            },
        ),
        Err(e) => Err(e.to_string()),
    }
}

/// The errors of the server-to-server bridge.
#[derive(Clone, Debug, PartialEq, Eq)]
pub enum S2SError {
    NotFound(String),
    BadRequest(String),
    Internal(String),
}

/// `S2SError` with its message as a sequence.
pub ghost enum S2SErrorView {
    NotFound(Seq<char>),
    BadRequest(Seq<char>),
    Internal(Seq<char>),
}

impl View for S2SError {
    type V = S2SErrorView;

    open spec fn view(&self) -> S2SErrorView {
        match self {
            S2SError::NotFound(m) => S2SErrorView::NotFound(m@),
            S2SError::BadRequest(m) => S2SErrorView::BadRequest(m@),
            S2SError::Internal(m) => S2SErrorView::Internal(m@),
        }
    }
}

/// The segment that follows the first `users` segment of a path, if any.
pub open spec fn user_after_users(segments: Seq<Seq<char>>) -> Option<Seq<char>>
    decreases segments.len(),
{
    if segments.len() == 0 {
        None
    } else if segments[0] == "users"@ {
        if segments.len() > 1 {
            Some(segments[1])
        } else {
            None
        }
    } else {
        user_after_users(segments.drop_first())
    }
}

/// The fediverse handle of `user` at `host`: `@user@host`.
pub open spec fn handle_of(user: Seq<char>, host: Seq<char>) -> Seq<char> {
    "@"@ + user + "@"@ + host
}

/// The fediverse handle `@user@host` derived from a parsed actor URI; the
/// parts that cannot be found read `unknown`.
pub open spec fn handle_text(parsed: Result<UrlPartsView, Seq<char>>) -> Seq<char> {
    match parsed {
        Err(_) => handle_of("unknown"@, "unknown"@),
        Ok(parts) => {
            let host = match parts.host {
                Some(h) => h,
                None => "unknown"@,
            };
            let user = match parts.path_segments {
                Some(segments) => match user_after_users(segments) {
                    Some(u) => u,
                    None => "unknown"@,
                },
                None => "unknown"@,
            };
            handle_of(user, host)
        },
    }
}

/// The segment after the first `users` segment.
fn find_user_segment(segments: &Vec<String>) -> (res: Option<String>)
    ensures
        res.deep_view() == user_after_users(segments.deep_view()),
{
    let ghost segs = segments.deep_view();
    let mut i: usize = 0;
    assert(segs.subrange(0, segs.len() as int) =~= segs);
    while i < segments.len()
        invariant
            segs == segments.deep_view(),
            i <= segs.len(),
            user_after_users(segs) == user_after_users(segs.subrange(i as int, segs.len() as int)),
        decreases segs.len() - i,
    {
        let ghost rest = segs.subrange(i as int, segs.len() as int);
        if str_equal(segments[i].as_str(), "users") {
            proof {
                reveal_strlit("users");
            }
            if i + 1 < segments.len() {
                return Some(copy_string(&segments[i + 1]));
            } else {
                return None;
            }
        }
        assert(rest.drop_first() =~= segs.subrange(i + 1, segs.len() as int));
        i = i + 1;
    }
    None
}

/// The fediverse handle derived from a parsed actor URI, e.g.
/// `@alice@mastodon.social` from `https://mastodon.social/users/alice`.
pub fn handle_from_parsed_uri(parsed: &Result<UrlParts, String>) -> (res: String)
    ensures
        res@ == handle_text(parse_view(*parsed)),
{
    proof {
        reveal_strlit("@unknown@unknown");
        reveal_strlit("@");
        reveal_strlit("unknown");
        assert("@unknown@unknown"@ =~= handle_of("unknown"@, "unknown"@));
    }
    match parsed {
        Err(_) => String::from_str("@unknown@unknown"),
        Ok(parts) => {
            let host = match &parts.host {
                Some(h) => copy_string(h),
                None => String::from_str("unknown"),
            };
            let user = match &parts.path_segments {
                Some(segments) => match find_user_segment(segments) {
                    Some(u) => u,
                    None => String::from_str("unknown"),
                },
                None => String::from_str("unknown"),
            };
            join3("@", user.as_str(), "@").concat(host.as_str())
        },
    }
}

/// Derives a fediverse handle from an actor URI:
/// `https://mastodon.social/users/alice` gives `@alice@mastodon.social`.
pub fn extract_handle_from_uri(uri: &str) -> (res: String)
    ensures
        res@ == handle_text(url_parse_result(uri@)),
        !uri@.contains(':') ==> res@ == "@unknown@unknown"@,
{
    proof {
        reveal_strlit("@unknown@unknown");
        reveal_strlit("@");
        reveal_strlit("unknown");
        assert("@unknown@unknown"@ =~= handle_of("unknown"@, "unknown"@));
    }
    let parsed = parse_url(uri);
    handle_from_parsed_uri(&parsed)
}

/// The domain of an instance URI, or the error that says why there is none.
pub open spec fn domain_result(uri: Seq<char>, parsed: Result<UrlPartsView, Seq<char>>) -> Result<
    Seq<char>,
    Seq<char>,
> {
    match parsed {
        Err(e) => Err("parse instance_uri: "@ + e),
        Ok(parts) => match parts.host {
            Some(h) => Ok(h),
            None => Err("no host in instance_uri: "@ + uri),
        },
    }
}

/// The host of a parsed instance URI.
pub fn domain_from_parsed_uri(uri: &str, parsed: &Result<UrlParts, String>) -> (res: Result<
    String,
    S2SError,
>)
    ensures
        match domain_result(uri@, parse_view(*parsed)) {
            Ok(h) => res matches Ok(d) && d@ == h,
            Err(m) => res matches Err(e) && e@ == S2SErrorView::Internal(m),
        },
{
    match parsed {
        Err(e) => Err(S2SError::Internal(join2("parse instance_uri: ", e.as_str()))),
        Ok(parts) => match &parts.host {
            Some(h) => Ok(copy_string(h)),
            None => Err(S2SError::Internal(join2("no host in instance_uri: ", uri))),
        },
    }
}

/// Extracts the domain from a URI like `https://cats.mewsfeed.example`.
pub fn extract_domain(uri: &str) -> (res: Result<String, S2SError>)
    ensures
        match domain_result(uri@, url_parse_result(uri@)) {
            Ok(h) => res matches Ok(d) && d@ == h,
            Err(m) => res matches Err(e) && e@ == S2SErrorView::Internal(m),
        },
{
    let parsed = parse_url(uri);
    domain_from_parsed_uri(uri, &parsed)
}

/// How a failed zome call is reported: as not found when the conductor's
/// message says so, else as an internal error naming the call.
pub open spec fn zome_call_error(zome_name: Seq<char>, fn_name: Seq<char>, message: Seq<char>) -> S2SErrorView {
    if has_substring(message, "not found"@) || has_substring(message, "missing"@) {
        S2SErrorView::NotFound(message)
    } else {
        S2SErrorView::Internal("zome call "@ + zome_name + "::"@ + fn_name + ": "@ + message)
    }
}


/// Classifies the message of a failed zome call.
pub fn zome_call_failure(zome_name: &str, fn_name: &str, message: &str) -> (res: S2SError)
    ensures
        res@ == zome_call_error(zome_name@, fn_name@, message@),
{
    if contains_str(message, "not found") || contains_str(message, "missing") {
        S2SError::NotFound(String::from_str(message))
    } else {
        S2SError::Internal(join4("zome call ", zome_name, "::", fn_name).concat(": ").concat(message))
    }
}

/// The error for a zome-call input that could not be encoded.
pub fn zome_encode_failure(reason: &str) -> (res: S2SError)
    ensures
        res@ == S2SErrorView::Internal("encode zome input: "@ + reason@),
{
    S2SError::Internal(join2("encode zome input: ", reason))
}

/// The error for a zome-call response that could not be decoded.
pub fn zome_decode_failure(zome_name: &str, fn_name: &str, reason: &str) -> (res: S2SError)
    ensures
        res@ == S2SErrorView::Internal(
            "decode "@ + zome_name@ + "::"@ + fn_name@ + " response: "@ + reason@,
        ),
{
    S2SError::Internal(join4("decode ", zome_name, "::", fn_name).concat(" response: ").concat(reason))
}


// ---------------------------------------------------------------------------
// Documents served to the fediverse
// ---------------------------------------------------------------------------

/// The URL of a local user's actor.
pub open spec fn actor_url_text(base_url: Seq<char>, username: Seq<char>) -> Seq<char> {
    base_url + "/users/"@ + username
}

/// The URL of a local user's actor: `{base_url}/users/{username}`.
pub fn build_actor_url(base_url: &str, username: &str) -> (res: String)
    ensures
        res@ == actor_url_text(base_url@, username@),
{
    join3(base_url, "/users/", username)
}

/// A link of a WebFinger response.
#[derive(Clone, Debug, PartialEq, Eq)]
pub struct WebFingerLink {
    pub rel: String,
    pub link_type: Option<String>,
    pub href: Option<String>,
    pub template: Option<String>,
}

/// A WebFinger response (RFC 7033).
#[derive(Clone, Debug, PartialEq, Eq)]
pub struct WebFingerResponse {
    pub subject: String,
    pub aliases: Vec<String>,
    pub links: Vec<WebFingerLink>,
}

/// `l` has the relation `rel`, the media type `media` and points at `href`.
pub open spec fn webfinger_link_is(l: WebFingerLink, rel: Seq<char>, media: Seq<char>, href: Seq<char>) -> bool {
    &&& l.rel@ == rel
    &&& l.link_type matches Some(t) && t@ == media
    &&& l.href matches Some(h) && h@ == href
    &&& l.template is None
}

/// The WebFinger response for a local user: subject `acct:{username}@{domain}`,
/// the actor URL as alias, and links to the actor and to its profile page.
pub fn webfinger_response(base_url: &str, username: &str, domain: &str) -> (res: WebFingerResponse)
    ensures
        res.subject@ == "acct:"@ + username@ + "@"@ + domain@,
        res.aliases@.len() == 1,
        res.aliases@[0]@ == actor_url_text(base_url@, username@),
        res.links@.len() == 2,
        webfinger_link_is(
            res.links@[0],
            "self"@,
            "application/activity+json"@,
            actor_url_text(base_url@, username@),
        ),
        webfinger_link_is(
            res.links@[1],
            "http://webfinger.net/rel/profile-page"@,
            "text/html"@,
            actor_url_text(base_url@, username@),
        ),
{
    let actor_url = build_actor_url(base_url, username);
    let mut aliases: Vec<String> = Vec::new();
    aliases.push(copy_string(&actor_url));
    let mut links: Vec<WebFingerLink> = Vec::new();
    links.push(
        WebFingerLink {
            rel: String::from_str("self"),
            link_type: Some(String::from_str("application/activity+json")),
            href: Some(copy_string(&actor_url)),
            template: None,
        },
    );
    links.push(
        WebFingerLink {
            rel: String::from_str("http://webfinger.net/rel/profile-page"),
            link_type: Some(String::from_str("text/html")),
            href: Some(actor_url),
            template: None,
        },
    );
    WebFingerResponse { subject: join4("acct:", username, "@", domain), aliases, links }
}

/// The public key of an actor, for HTTP signatures.
#[derive(Clone, Debug, PartialEq, Eq)]
pub struct APPublicKey {
    pub id: String,
    pub owner: String,
    pub public_key_pem: String,
}

/// An ActivityPub actor document.
#[derive(Clone, Debug, PartialEq, Eq)]
pub struct APActor {
    pub id: String,
    pub actor_type: String,
    pub preferred_username: String,
    pub name: Option<String>,
    pub summary: Option<String>,
    pub url: Option<String>,
    pub inbox: String,
    pub outbox: String,
    pub followers: Option<String>,
    pub following: Option<String>,
    pub public_key: APPublicKey,
    pub manually_approves_followers: bool,
    pub discoverable: bool,
}

/// The summary of an actor: its `bio` field wrapped in a paragraph.
pub open spec fn summary_text(fields: Seq<(Seq<char>, Seq<char>)>) -> Option<Seq<char>> {
    match field_value(fields, "bio"@) {
        Some(bio) => Some("<p>"@ + bio + "</p>"@),
        None => None,
    }
}

/// The actor document of a local user, from its profile and public key.
pub fn actor_document(base_url: &str, username: &str, profile: &AgentApProfile, public_key_pem: String) -> (res:
    APActor)
    ensures
        ({
            let url = actor_url_text(base_url@, username@);
            &&& res.id@ == url
            &&& res.actor_type@ == "Person"@
            &&& res.preferred_username@ == username@
            &&& res.name.deep_view() == profile.nickname.deep_view()
            &&& res.summary.deep_view() == summary_text(profile.fields@)
            &&& res.url matches Some(u) && u@ == url
            &&& res.inbox@ == url + "/inbox"@
            &&& res.outbox@ == url + "/outbox"@
            &&& res.followers matches Some(f) && f@ == url + "/followers"@
            &&& res.following matches Some(f) && f@ == url + "/following"@
            &&& res.public_key.id@ == url + "#main-key"@
            &&& res.public_key.owner@ == url
            &&& res.public_key.public_key_pem == public_key_pem
            &&& !res.manually_approves_followers
            &&& res.discoverable
        }),
{
    let actor_url = build_actor_url(base_url, username);
    let summary = match profile.fields.get("bio") {
        Some(bio) => Some(join3("<p>", bio.as_str(), "</p>")),
        None => None,
    };
    APActor {
        id: copy_string(&actor_url),
        actor_type: String::from_str("Person"),
        preferred_username: String::from_str(username),
        name: copy_opt_string(&profile.nickname),
        summary,
        url: Some(copy_string(&actor_url)),
        inbox: join2(actor_url.as_str(), "/inbox"),
        outbox: join2(actor_url.as_str(), "/outbox"),
        followers: Some(join2(actor_url.as_str(), "/followers")),
        following: Some(join2(actor_url.as_str(), "/following")),
        public_key: APPublicKey {
            id: join2(actor_url.as_str(), "#main-key"),
            owner: actor_url,
            public_key_pem,
        },
        manually_approves_followers: false,
        discoverable: true,
    }
}

/// An ActivityStreams ordered collection, as the outbox serves it.
#[derive(Clone, Debug, PartialEq, Eq)]
pub struct OrderedCollection {
    pub id: String,
    pub collection_type: String,
    pub total_items: u64,
    pub first: Option<String>,
    pub last: Option<String>,
}

/// The outbox of a local user holding `total` federated mews; it has a
/// first page exactly when it is not empty.
pub fn outbox_collection(base_url: &str, username: &str, total: usize) -> (res: OrderedCollection)
    ensures
        res.id@ == actor_url_text(base_url@, username@) + "/outbox"@,
        res.collection_type@ == "OrderedCollection"@,
        res.total_items == total,
        total == 0 ==> res.first is None,
        total > 0 ==> (res.first matches Some(f) && f@ == actor_url_text(base_url@, username@)
            + "/outbox"@ + "?page=true"@),
        res.last is None,
{
    let outbox_url = join2(build_actor_url(base_url, username).as_str(), "/outbox");
    let first = if total == 0 {
        None
    } else {
        Some(join2(outbox_url.as_str(), "?page=true"))
    };
    OrderedCollection {
        id: outbox_url,
        collection_type: String::from_str("OrderedCollection"),
        total_items: total as u64,
        first,
        last: None,
    }
}

// ---------------------------------------------------------------------------
// Resolving local users and mews
// ---------------------------------------------------------------------------

/// Whether a profile makes its agent the local user `username`: its
/// nickname must be exactly that name.
pub fn profile_names_user(profile: &Option<AgentApProfile>, username: &str) -> (res: bool)
    ensures
        res == (profile matches Some(p) && p.nickname matches Some(n) && n@ == username@),
{
    match profile {
        Some(p) => match &p.nickname {
            Some(n) => str_equal(n.as_str(), username),
            None => false,
        },
        None => false,
    }
}

/// The error for an inbox addressed to an unknown local user.
pub fn unknown_user(username: &str) -> (res: S2SError)
    ensures
        res@ == S2SErrorView::NotFound("user: "@ + username@),
{
    S2SError::NotFound(join2("user: ", username))
}

/// The mew that an ActivityPub URI names, from the federation state found
/// for it; an error when there is none.
pub fn mew_hash_for_ap_uri(ap_uri: &str, state: Option<MewFederationState>) -> (res: Result<
    ActionHash,
    S2SError,
>)
    ensures
        state matches Some(s) ==> res == Ok::<ActionHash, S2SError>(s.mew_hash),
        state is None ==> (res matches Err(e) && e@ == S2SErrorView::NotFound(
            "no mew for AP URI: "@ + ap_uri@,
        )),
{
    match state {
        Some(s) => Ok(s.mew_hash),
        None => Err(S2SError::NotFound(join2("no mew for AP URI: ", ap_uri))),
    }
}


// ---------------------------------------------------------------------------
// Inbox processing
// ---------------------------------------------------------------------------

/// The `object` of an incoming activity, reduced to what the inbox reads:
/// the object itself when it is a string, and the string members `type`,
/// `id`, `object` and `inReplyTo` when it is an object.
#[derive(Clone, Debug, PartialEq, Eq)]
pub struct ActivityObject {
    pub text: Option<String>,
    pub kind: Option<String>,
    pub id: Option<String>,
    pub object: Option<String>,
    pub in_reply_to: Option<String>,
}

/// An incoming activity, reduced to what the inbox reads.
#[derive(Clone, Debug, PartialEq, Eq)]
pub struct InboxActivity {
    pub id: String,
    pub activity_type: String,
    pub actor: String,
    pub object: ActivityObject,
}

/// An interaction whose mew is still to be found.
#[derive(Clone, Debug, PartialEq, Eq)]
pub struct PendingInteraction {
    pub actor_uri: String,
    pub interaction_type: RemoteInteractionType,
    pub activity_uri: String,
}

impl PendingInteraction {
    /// The interaction on the mew `mew_hash`, received at `timestamp`.
    pub fn on_mew(self, mew_hash: ActionHash, timestamp: Timestamp) -> (res: RemoteInteraction)
        ensures
            res == (RemoteInteraction {
                mew_hash,
                actor_uri: self.actor_uri,
                interaction_type: self.interaction_type,
                activity_uri: self.activity_uri,
                timestamp,
            }),
    {
        RemoteInteraction {
            mew_hash,
            actor_uri: self.actor_uri,
            interaction_type: self.interaction_type,
            activity_uri: self.activity_uri,
            timestamp,
        }
    }
}

/// What comes of a reply once the mew it answers was looked up: the reply
/// on that mew when the lookup found its federation state; nothing when the
/// lookup failed or found none, and the inbox then ends without an error
/// and without a write.
pub fn reply_on_found_mew(
    found: Result<Option<MewFederationState>, S2SError>,
    reply: PendingInteraction,
    timestamp: Timestamp,
) -> (res: Option<RemoteInteraction>)
    ensures
        found matches Ok(Some(s)) ==> res == Some(
            RemoteInteraction {
                mew_hash: s.mew_hash,
                actor_uri: reply.actor_uri,
                interaction_type: reply.interaction_type,
                activity_uri: reply.activity_uri,
                timestamp,
            },
        ),
        !(found matches Ok(Some(_))) ==> res is None,
{
    match found {
        Ok(Some(s)) => Some(reply.on_mew(s.mew_hash, timestamp)),
        _ => None,
    }
}

/// What the inbox does with an activity.
#[derive(Clone, Debug, PartialEq, Eq)]
pub enum InboxPlan {
    /// Record the follower, then cache its actor reference.
    RecordFollower { follower: RemoteFollower, actor_ref: RemoteActorRef },
    /// Find the mew named by `object_uri` (failing when there is none), then
    /// record the interaction on it.
    RecordInteraction { object_uri: String, interaction: PendingInteraction },
    /// Find the mew named by `object_uri` (failing when there is none), then
    /// delete its interaction with the activity URI `activity_uri`.
    RemoveInteraction { object_uri: String, activity_uri: String },
    /// Look for the mew named by `in_reply_to`; when there is one, record the
    /// reply on it, and otherwise do nothing.
    RecordReply { in_reply_to: String, interaction: PendingInteraction },
    /// Nothing to record.
    Nothing,
}

/// `i` comes from `actor` through the activity `activity_uri` and is of type `t`.
pub open spec fn pending_is(
    i: PendingInteraction,
    actor: Seq<char>,
    activity_uri: Seq<char>,
    t: RemoteInteractionType,
) -> bool {
    &&& i.actor_uri@ == actor
    &&& i.activity_uri@ == activity_uri
    &&& i.interaction_type == t
}

/// The plan for a liked or announced object: it must be a URI.
pub open spec fn interaction_plan_ok(
    a: InboxActivity,
    t: RemoteInteractionType,
    refusal: Seq<char>,
    res: Result<InboxPlan, S2SError>,
) -> bool {
    match a.object.text {
        Some(uri) => res matches Ok(InboxPlan::RecordInteraction { object_uri, interaction }) && {
            &&& object_uri@ == uri@
            &&& pending_is(interaction, a.actor@, a.id@, t)
        },
        None => res matches Err(e) && e@ == S2SErrorView::BadRequest(refusal),
    }
}

/// The plan for an `Undo`: of a like or an announce it removes the
/// interaction, whose activity id and object must be given; of anything
/// else (a follow among them) it does nothing.
pub open spec fn undo_plan_ok(a: InboxActivity, res: Result<InboxPlan, S2SError>) -> bool {
    let inner = match a.object.kind {
        Some(k) => k@,
        None => ""@,
    };
    if inner == "Like"@ || inner == "Announce"@ {
        match (a.object.id, a.object.object) {
            (None, _) => res matches Err(e) && e@ == S2SErrorView::BadRequest(
                "Undo object must have id"@,
            ),
            (Some(_), None) => res matches Err(e) && e@ == S2SErrorView::BadRequest(
                "Undo inner object must be a URI"@,
            ),
            (Some(id), Some(object)) => res matches Ok(
                InboxPlan::RemoveInteraction { object_uri, activity_uri },
            ) && object_uri@ == object@ && activity_uri@ == id@,
        }
    } else {
        res == Ok::<InboxPlan, S2SError>(InboxPlan::Nothing)
    }
}

/// The plan for a `Create`: a reply to a mew when it has `inReplyTo`; the
/// note is the object's id, or the activity's when the object has none.
pub open spec fn create_plan_ok(a: InboxActivity, res: Result<InboxPlan, S2SError>) -> bool {
    match a.object.in_reply_to {
        Some(target) => res matches Ok(InboxPlan::RecordReply { in_reply_to, interaction }) && {
            let note = match a.object.id {
                Some(id) => id@,
                None => a.id@,
            };
            &&& in_reply_to@ == target@
            &&& interaction.actor_uri@ == a.actor@
            &&& interaction.activity_uri@ == a.id@
            &&& interaction.interaction_type matches RemoteInteractionType::Reply { note_uri }
            &&& note_uri@ == note
        },
        None => res == Ok::<InboxPlan, S2SError>(InboxPlan::Nothing),
    }
}

/// The plan for a `Follow`: the actor follows `agent` from `now` on, and
/// its reference is cached with the handle derived from its URI.
pub open spec fn follow_plan_ok(a: InboxActivity, agent: AgentPubKey, now: Timestamp, res: Result<
    InboxPlan,
    S2SError,
>) -> bool {
    res matches Ok(InboxPlan::RecordFollower { follower, actor_ref }) && {
        &&& follower.local_agent == agent
        &&& follower.remote_actor_uri@ == a.actor@
        &&& follower.followed_at == now
        &&& actor_ref.actor_uri@ == a.actor@
        &&& actor_ref.handle@ == handle_text(url_parse_result(a.actor@))
        &&& actor_ref.display_name is None
    }
}

/// What the inbox does with an activity, by its type.
pub open spec fn inbox_plan_ok(a: InboxActivity, agent: AgentPubKey, now: Timestamp, res: Result<
    InboxPlan,
    S2SError,
>) -> bool {
    let t = a.activity_type@;
    if t == "Follow"@ {
        follow_plan_ok(a, agent, now, res)
    } else if t == "Like"@ {
        interaction_plan_ok(a, RemoteInteractionType::Like, "Like object must be a URI"@, res)
    } else if t == "Announce"@ {
        interaction_plan_ok(
            a,
            RemoteInteractionType::Announce,
            "Announce object must be a URI"@,
            res,
        )
    } else if t == "Undo"@ {
        undo_plan_ok(a, res)
    } else if t == "Create"@ {
        create_plan_ok(a, res)
    } else {
        res == Ok::<InboxPlan, S2SError>(InboxPlan::Nothing)
    }
}

fn plan_interaction(
    activity: InboxActivity,
    interaction_type: RemoteInteractionType,
    refusal: &str,
) -> (res: Result<InboxPlan, S2SError>)
    ensures
        interaction_plan_ok(activity, interaction_type, refusal@, res),
{
    match activity.object.text {
        Some(uri) => Ok(
            InboxPlan::RecordInteraction {
                object_uri: uri,
                interaction: PendingInteraction {
                    actor_uri: activity.actor,
                    interaction_type,
                    activity_uri: activity.id,
                },
            },
        ),
        None => Err(S2SError::BadRequest(String::from_str(refusal))),
    }
}

fn plan_undo(activity: InboxActivity) -> (res: Result<InboxPlan, S2SError>)
    ensures
        undo_plan_ok(activity, res),
{
    let inner = match &activity.object.kind {
        Some(k) => copy_string(k),
        None => String::from_str(""),
    };
    proof {
        reveal_strlit("");
    }
    if str_equal(inner.as_str(), "Like") || str_equal(inner.as_str(), "Announce") {
        match (activity.object.id, activity.object.object) {
            (None, _) => Err(S2SError::BadRequest(String::from_str("Undo object must have id"))),
            (Some(_), None) => Err(
                S2SError::BadRequest(String::from_str("Undo inner object must be a URI")),
            ),
            (Some(id), Some(object)) => Ok(
                InboxPlan::RemoveInteraction { object_uri: object, activity_uri: id },
            ),
        }
    } else {
        Ok(InboxPlan::Nothing)
    }
}

fn plan_create(activity: InboxActivity) -> (res: Result<InboxPlan, S2SError>)
    ensures
        create_plan_ok(activity, res),
{
    match activity.object.in_reply_to {
        Some(target) => {
            let note_uri = match activity.object.id {
                Some(id) => id,
                None => copy_string(&activity.id),
            };
            Ok(
                InboxPlan::RecordReply {
                    in_reply_to: target,
                    interaction: PendingInteraction {
                        actor_uri: activity.actor,
                        interaction_type: RemoteInteractionType::Reply { note_uri },
                        activity_uri: activity.id,
                    },
                },
            )
        },
        None => Ok(InboxPlan::Nothing),
    }
}

/// Decides what the inbox of the local agent `agent` does with an activity
/// received at `now`: follows are recorded with the actor's handle, likes
/// and announces of a mew are recorded and undone, replies to a mew are
/// recorded; everything else (accepts among them) changes nothing.
pub fn plan_inbox(agent: AgentPubKey, activity: InboxActivity, now: Timestamp) -> (res: Result<
    InboxPlan,
    S2SError,
>)
    ensures
        inbox_plan_ok(activity, agent, now, res),
{
    proof {
        reveal_strlit("Follow");
        reveal_strlit("Like");
        reveal_strlit("Announce");
        reveal_strlit("Undo");
        reveal_strlit("Create");
    }
    let t = activity.activity_type.as_str();
    if str_equal(t, "Follow") {
        let handle = extract_handle_from_uri(activity.actor.as_str());
        let actor_ref = RemoteActorRef {
            actor_uri: copy_string(&activity.actor),
            handle,
            display_name: None,
        };
        let follower = RemoteFollower {
            local_agent: agent,
            remote_actor_uri: activity.actor,
            followed_at: now,
        };
        Ok(InboxPlan::RecordFollower { follower, actor_ref })
    } else if str_equal(t, "Like") {
        plan_interaction(activity, RemoteInteractionType::Like, "Like object must be a URI")
    } else if str_equal(t, "Announce") {
        plan_interaction(activity, RemoteInteractionType::Announce, "Announce object must be a URI")
    } else if str_equal(t, "Undo") {
        plan_undo(activity)
    } else if str_equal(t, "Create") {
        plan_create(activity)
    } else {
        Ok(InboxPlan::Nothing)
    }
}

} // verus!

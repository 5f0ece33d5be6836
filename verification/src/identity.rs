//! Identity resolution: a verified external subject is mapped to a
//! durable local user id. The overwhelmingly common path is one store
//! lookup; a never-before-seen subject has a profile fetched from the
//! identity provider and a local record inserted under the store's
//! uniqueness constraint, which is the sole synchronization for the
//! create-race: the loser of the race retries the lookup instead of
//! erroring.

use vstd::prelude::*;
use vstd::string::StringExecFns;

use crate::errors::ResolveError;
use crate::models::NewUser;
use crate::models::Profile;
use crate::models::ProfileView;
use crate::models::UserType;
use crate::strutil::spec_decimal;
use crate::strutil::u64_to_decimal;

verus! {

#[verifier::external_type_specification]
#[verifier::external_body]
pub struct ExUuid(uuid::Uuid);

pub assume_specification<T>[ rand::random::<T> ]() -> (r: T)
    where
        rand::distributions::Standard: rand::distributions::Distribution<T>,
;

/// What the profile endpoint's payload denotes: the five required fields,
/// or nothing when any of them is missing or the payload is not a JSON
/// object.
pub uninterp spec fn profile_of(body: Seq<char>) -> Option<ProfileView>;

/// Relies on serde_json::from_str and the Value accessors: reads the five
/// required profile fields; a payload missing any of them denotes
/// nothing.
#[verifier::external_body]
fn parse_profile_raw(body: &str) -> (r: Option<Profile>)
    ensures
        match r {
            Some(p) => profile_of(body@) == Some(p@),
            None => profile_of(body@) is None,
        },
{
    let v: serde_json::Value = match serde_json::from_str(body) {
        Ok(v) => v,
        Err(_) => return None,
    };
    let given_name = v.get("given_name")?.as_str()?.to_string();
    let family_name = v.get("family_name")?.as_str()?.to_string();
    let email = v.get("email")?.as_str()?.to_string();
    let picture = v.get("picture")?.as_str()?.to_string();
    let user_id = v.get("user_id")?.as_str()?.to_string();
    Some(Profile { given_name, family_name, email, picture, user_id })
}

/// Parses the identity provider's profile payload. Missing required
/// fields are a hard construction error, surfaced as a provider fault.
pub fn parse_profile(body: &str) -> (r: Result<Profile, ResolveError>)
    ensures
        match r {
            Ok(p) => profile_of(body@) == Some(p@),
            Err(e) => e == ResolveError::ProviderUnavailable && profile_of(body@) is None,
        },
{
    match parse_profile_raw(body) {
        Some(p) => Ok(p),
        None => Err(ResolveError::ProviderUnavailable),
    }
}

/// The service credential carried by the token endpoint's payload, or
/// nothing when the payload has no string `access_token`.
pub uninterp spec fn access_token_of(body: Seq<char>) -> Option<Seq<char>>;

/// Relies on serde_json::from_str and the Value accessors: reads the
/// `access_token` field of the token endpoint's payload.
#[verifier::external_body]
fn parse_access_token_raw(body: &str) -> (r: Option<String>)
    ensures
        match r {
            Some(t) => access_token_of(body@) == Some(t@),
            None => access_token_of(body@) is None,
        },
{
    let v: serde_json::Value = match serde_json::from_str(body) {
        Ok(v) => v,
        Err(_) => return None,
    };
    Some(v.get("access_token")?.as_str()?.to_string())
}

/// Parses the short-lived service credential out of the credential
/// endpoint's payload; an unusable payload is a provider fault.
pub fn parse_access_token(body: &str) -> (r: Result<String, ResolveError>)
    ensures
        match r {
            Ok(t) => access_token_of(body@) == Some(t@),
            Err(e) => e == ResolveError::ProviderUnavailable && access_token_of(body@) is None,
        },
{
    match parse_access_token_raw(body) {
        Some(t) => Ok(t),
        None => Err(ResolveError::ProviderUnavailable),
    }
}

/// The views of a list of strings.
pub open spec fn string_views(list: Seq<String>) -> Seq<Seq<char>> {
    list.map_values(|s: String| s@)
}

/// What a freshly built local user record owes to the profile it came
/// from: profile fields carried over, the username from the names plus a
/// numeric suffix, the admin flag computed once at creation time from the
/// allow-list, and every other field at its creation-time default.
pub open spec fn spec_new_user(
    u: NewUser,
    p: ProfileView,
    admins: Seq<Seq<char>>,
    suffix: u32,
) -> bool {
    &&& u.user_type == UserType::User
    &&& (u.is_admin <==> admins.contains(p.email))
    &&& u.onboarding_completed == false
    &&& u.first_name@ == p.given_name
    &&& u.last_name@ == p.family_name
    &&& u.user_name@ == p.given_name + p.family_name + spec_decimal(suffix as int)
    &&& u.email@ == p.email
    &&& u.phone_number@ == Seq::<char>::empty()
    &&& u.image@ == p.picture
    &&& u.birthday is None
    &&& u.provider_id@ == p.user_id
    &&& u.bio@ == Seq::<char>::empty()
    &&& u.gender@ == Seq::<char>::empty()
    &&& u.beta_access == false
    &&& u.training_approach@ == Seq::<char>::empty()
    &&& u.training_years == 0
    &&& u.training_specializations@ == Seq::<char>::empty()
    &&& u.goals@ == Seq::<char>::empty()
    &&& u.weight == 0
}

fn email_in_list(list: &Vec<String>, email: &String) -> (r: bool)
    ensures
        r == string_views(list@).contains(email@),
{
    let ghost views = string_views(list@);
    let mut i: usize = 0;
    let mut found = false;
    while i < list.len()
        invariant
            i <= list@.len(),
            views == string_views(list@),
            found <==> exists|j: int| 0 <= j < i && (#[trigger] list@[j])@ == email@,
        decreases list@.len() - i,
    {
        if list[i] == *email {
            found = true;
        }
        i = i + 1;
    }
    proof {
        if found {
            let j = choose|j: int| 0 <= j < list@.len() && (#[trigger] list@[j])@ == email@;
            assert(views[j] == email@);
        } else {
            assert forall|j: int| 0 <= j < views.len() implies (#[trigger] views[j]) != email@ by {
                assert((list@[j])@ == views[j]);
            }
        }
    }
    found
}

/// Builds the local user record for a fetched profile, with the given
/// username suffix. Derived flags (the admin allow-list match) are
/// computed here, once, and never re-derived afterward.
pub fn build_new_user(profile: &Profile, suffix: u32, admin_emails: &Vec<String>) -> (r: NewUser)
    ensures
        spec_new_user(r, profile@, string_views(admin_emails@), suffix),
{
    let mut user_name = profile.given_name.clone();
    user_name.append(profile.family_name.as_str());
    let digits = u64_to_decimal(suffix as u64);
    user_name.append(digits.as_str());
    let is_admin = email_in_list(admin_emails, &profile.email);
    NewUser {
        user_type: UserType::User,
        is_admin,
        onboarding_completed: false,
        first_name: profile.given_name.clone(),
        last_name: profile.family_name.clone(),
        user_name,
        email: profile.email.clone(),
        phone_number: String::new(),
        image: profile.picture.clone(),
        birthday: None,
        provider_id: profile.user_id.clone(),
        bio: String::new(),
        gender: String::new(),
        beta_access: false,
        training_approach: String::new(),
        training_years: 0,
        training_specializations: String::new(),
        goals: String::new(),
        weight: 0,
    }
}

/// Builds the local user record with a random username suffix. Relies on
/// rand::random for the suffix alone; everything else is pinned to the
/// profile.
pub fn build_new_user_fresh(profile: &Profile, admin_emails: &Vec<String>) -> (r: NewUser)
    ensures
        exists|suffix: u32|
            #[trigger] spec_new_user(r, profile@, string_views(admin_emails@), suffix),
{
    let suffix: u32 = rand::random();
    build_new_user(profile, suffix, admin_emails)
}

/// One row of the user store as the resolver sees it: the durable local
/// id and the unique external subject.
pub struct UserRow {
    pub id: uuid::Uuid,
    pub provider_id: String,
}

pub ghost struct UserRowView {
    pub id: uuid::Uuid,
    pub provider_id: Seq<char>,
}

impl View for UserRow {
    type V = UserRowView;

    open spec fn view(&self) -> UserRowView {
        UserRowView { id: self.id, provider_id: self.provider_id@ }
    }
}

/// The id of the first (with well-formedness: the only) row for a
/// subject.
pub open spec fn spec_lookup(rows: Seq<UserRowView>, subject: Seq<char>) -> Option<uuid::Uuid>
    decreases rows.len(),
{
    if rows.len() == 0 {
        None
    } else if rows[0].provider_id == subject {
        Some(rows[0].id)
    } else {
        spec_lookup(rows.drop_first(), subject)
    }
}

/// How many rows carry the subject.
pub open spec fn subject_count(rows: Seq<UserRowView>, subject: Seq<char>) -> int
    decreases rows.len(),
{
    if rows.len() == 0 {
        0int
    } else {
        (if rows[0].provider_id == subject {
            1int
        } else {
            0int
        }) + subject_count(rows.drop_first(), subject)
    }
}

proof fn lemma_lookup_none_iff_count_zero(rows: Seq<UserRowView>, subject: Seq<char>)
    ensures
        spec_lookup(rows, subject) is None <==> subject_count(rows, subject) == 0,
        subject_count(rows, subject) >= 0,
    decreases rows.len(),
{
    if rows.len() > 0 {
        lemma_lookup_none_iff_count_zero(rows.drop_first(), subject);
    }
}

proof fn lemma_lookup_push(rows: Seq<UserRowView>, row: UserRowView, subject: Seq<char>)
    ensures
        spec_lookup(rows.push(row), subject) == (match spec_lookup(rows, subject) {
            Some(id) => Some(id),
            None => if row.provider_id == subject {
                Some(row.id)
            } else {
                None
            },
        }),
        subject_count(rows.push(row), subject) == subject_count(rows, subject) + (
        if row.provider_id == subject {
            1int
        } else {
            0int
        }),
    decreases rows.len(),
{
    if rows.len() == 0 {
        assert(rows.push(row)[0] == row);
        assert(rows.push(row).drop_first() =~= Seq::<UserRowView>::empty());
        assert(subject_count(rows.push(row).drop_first(), subject) == 0);
        assert(subject_count(rows, subject) == 0);
    } else {
        assert(rows.push(row)[0] == rows[0]);
        assert(rows.push(row).drop_first() =~= rows.drop_first().push(row));
        lemma_lookup_push(rows.drop_first(), row, subject);
        assert(subject_count(rows.push(row), subject) == (if rows[0].provider_id == subject {
            1int
        } else {
            0int
        }) + subject_count(rows.drop_first().push(row), subject));
    }
}

/// The reference model of the user store: rows with a unique external
/// subject, looked up by subject and extended only through an insert that
/// enforces the uniqueness constraint, exactly as the real store does.
pub struct SubjectStore {
    rows: Vec<UserRow>,
}

impl View for SubjectStore {
    type V = Seq<UserRowView>;

    closed spec fn view(&self) -> Seq<UserRowView> {
        self.rows@.map_values(|r: UserRow| r@)
    }
}

impl SubjectStore {
    /// Every subject appears on at most one row.
    pub open spec fn wf(self) -> bool {
        forall|i: int, j: int|
            #![trigger self@[i], self@[j]]
            0 <= i < j < self@.len() ==> self@[i].provider_id != self@[j].provider_id
    }

    pub fn new() -> (r: SubjectStore)
        ensures
            r.wf(),
            r@ =~= Seq::<UserRowView>::empty(),
    {
        SubjectStore { rows: Vec::new() }
    }

    /// How many rows the store holds.
    pub fn len(&self) -> (r: usize)
        ensures
            r == self@.len(),
    {
        self.rows.len()
    }

    /// The fast path: the id under this subject, if the subject is known.
    pub fn lookup(&self, subject: &str) -> (r: Option<uuid::Uuid>)
        ensures
            r == spec_lookup(self@, subject@),
    {
        let owned: String = subject.to_owned();
        let mut i: usize = 0;
        proof {
            assert(self@.skip(0) =~= self@);
        }
        while i < self.rows.len()
            invariant
                i <= self.rows@.len(),
                self@.len() == self.rows@.len(),
                owned@ == subject@,
                forall|j: int| 0 <= j < self@.len() ==> #[trigger] self@[j] == self.rows@[j]@,
                spec_lookup(self@, subject@) == spec_lookup(self@.skip(i as int), subject@),
            decreases self.rows@.len() - i,
        {
            proof {
                assert(self@.skip(i as int).drop_first() =~= self@.skip(i + 1));
                assert(self@.skip(i as int)[0] == self@[i as int]);
            }
            if self.rows[i].provider_id == owned {
                return Some(self.rows[i].id);
            }
            i = i + 1;
        }
        None
    }

    /// Attempts the insert under the uniqueness constraint: it succeeds
    /// exactly when no row for the subject exists, and a refused insert
    /// changes nothing. This is the sole synchronization of the
    /// create-race.
    pub fn insert_unique(&mut self, subject: &str, id: uuid::Uuid) -> (r: bool)
        requires
            old(self).wf(),
        ensures
            final(self).wf(),
            r == (spec_lookup(old(self)@, subject@) is None),
            r ==> final(self)@ == old(self)@.push(
                UserRowView { id, provider_id: subject@ },
            ),
            !r ==> final(self)@ == old(self)@,
    {
        match self.lookup(subject) {
            Some(_) => false,
            None => {
                let ghost s_old = self@;
                let row = UserRow { id, provider_id: subject.to_owned() };
                let ghost row_v = row@;
                self.rows.push(row);
                proof {
                    assert(self@ =~= s_old.push(row_v));
                    lemma_lookup_none_iff_count_zero(s_old, subject@);
                    assert forall|i: int, j: int|
                        #![trigger self@[i], self@[j]]
                        0 <= i < j < self@.len() implies self@[i].provider_id
                        != self@[j].provider_id by {
                        if j == self@.len() - 1 {
                            assert(spec_lookup(s_old, subject@) is None);
                            lemma_lookup_none_row(s_old, subject@, i);
                        }
                    }
                }
                true
            },
        }
    }
}

proof fn lemma_lookup_none_row(rows: Seq<UserRowView>, subject: Seq<char>, i: int)
    requires
        spec_lookup(rows, subject) is None,
        0 <= i < rows.len(),
    ensures
        rows[i].provider_id != subject,
    decreases rows.len(),
{
    if i > 0 {
        lemma_lookup_none_row(rows.drop_first(), subject, i - 1);
        assert(rows.drop_first()[i - 1] == rows[i]);
    }
}

/// Two concurrent resolutions of one never-before-seen subject: the
/// winner's insert passes the uniqueness constraint; the loser's insert
/// is refused, and its retry lookup reads exactly the winner's id, so
/// both callers return the same local user id, and exactly one row for
/// the subject exists afterwards.
pub proof fn lemma_create_race(
    rows: Seq<UserRowView>,
    subject: Seq<char>,
    winner_id: uuid::Uuid,
)
    requires
        spec_lookup(rows, subject) is None,
    ensures
        ({
            let rows1 = rows.push(UserRowView { id: winner_id, provider_id: subject });
            &&& spec_lookup(rows1, subject) == Some(winner_id)
            &&& subject_count(rows1, subject) == 1
            &&& !(spec_lookup(rows1, subject) is None)
        }),
{
    lemma_lookup_none_iff_count_zero(rows, subject);
    lemma_lookup_push(rows, UserRowView { id: winner_id, provider_id: subject }, subject);
}

/// The phases of one resolution.
#[derive(Clone, Copy, Debug, PartialEq, Eq, Structural)]
pub enum ResolvePhase {
    /// The store is being asked for the subject.
    AwaitingLookup,
    /// The subject is unknown; the provider is being asked for its
    /// profile.
    AwaitingProfile,
    /// A record built from the profile is being inserted.
    AwaitingInsert,
    /// The insert hit the uniqueness constraint; the lookup runs once
    /// more.
    AwaitingRetryLookup,
    Finished,
}

/// What the outside world reports back to the resolver.
pub enum ResolveEvent {
    SubjectFound(uuid::Uuid),
    SubjectMissing,
    ProfileFetched(Profile),
    ProfileUnavailable,
    InsertOk(uuid::Uuid),
    InsertDuplicate,
    InsertFailed,
}

/// What the resolver asks the outside world to do next.
pub enum ResolveAction {
    LookupSubject,
    FetchProfile,
    InsertUser(NewUser),
    Done(Result<uuid::Uuid, ResolveError>),
}

pub ghost enum ActionKind {
    Lookup,
    Fetch,
    Insert,
    DoneOk(uuid::Uuid),
    DoneErr(ResolveError),
}

/// The resolver's transition relation: every (phase, event) pair has
/// exactly one successor. A profile-fetch failure is a provider fault; a
/// refused insert retries the lookup once; any persistence failure, and
/// any event out of protocol, is an internal error.
pub open spec fn spec_transition(phase: ResolvePhase, event: ResolveEvent) -> (
    ResolvePhase,
    ActionKind,
) {
    match (phase, event) {
        (ResolvePhase::AwaitingLookup, ResolveEvent::SubjectFound(id)) => (
            ResolvePhase::Finished,
            ActionKind::DoneOk(id),
        ),
        (ResolvePhase::AwaitingLookup, ResolveEvent::SubjectMissing) => (
            ResolvePhase::AwaitingProfile,
            ActionKind::Fetch,
        ),
        (ResolvePhase::AwaitingProfile, ResolveEvent::ProfileFetched(_)) => (
            ResolvePhase::AwaitingInsert,
            ActionKind::Insert,
        ),
        (ResolvePhase::AwaitingProfile, ResolveEvent::ProfileUnavailable) => (
            ResolvePhase::Finished,
            ActionKind::DoneErr(ResolveError::ProviderUnavailable),
        ),
        (ResolvePhase::AwaitingInsert, ResolveEvent::InsertOk(id)) => (
            ResolvePhase::Finished,
            ActionKind::DoneOk(id),
        ),
        (ResolvePhase::AwaitingInsert, ResolveEvent::InsertDuplicate) => (
            ResolvePhase::AwaitingRetryLookup,
            ActionKind::Lookup,
        ),
        (ResolvePhase::AwaitingInsert, ResolveEvent::InsertFailed) => (
            ResolvePhase::Finished,
            ActionKind::DoneErr(ResolveError::InternalError),
        ),
        (ResolvePhase::AwaitingRetryLookup, ResolveEvent::SubjectFound(id)) => (
            ResolvePhase::Finished,
            ActionKind::DoneOk(id),
        ),
        (ResolvePhase::AwaitingRetryLookup, ResolveEvent::SubjectMissing) => (
            ResolvePhase::Finished,
            ActionKind::DoneErr(ResolveError::InternalError),
        ),
        _ => (ResolvePhase::Finished, ActionKind::DoneErr(ResolveError::InternalError)),
    }
}

/// Where a resolution starts: ask the store for the subject.
pub fn resolve_start() -> (r: (ResolvePhase, ResolveAction))
    ensures
        r.0 is AwaitingLookup,
        r.1 is LookupSubject,
{
    (ResolvePhase::AwaitingLookup, ResolveAction::LookupSubject)
}

/// One decision of the resolver: from the current phase and the event the
/// outside world reported, the next phase and the next action, exactly as
/// the transition relation prescribes. The record handed to an insert is
/// built from the fetched profile with a fresh username suffix.
pub fn resolve_step(
    phase: ResolvePhase,
    event: ResolveEvent,
    admin_emails: &Vec<String>,
) -> (r: (ResolvePhase, ResolveAction))
    ensures
        r.0 == spec_transition(phase, event).0,
        match spec_transition(phase, event).1 {
            ActionKind::Lookup => r.1 is LookupSubject,
            ActionKind::Fetch => r.1 is FetchProfile,
            ActionKind::Insert => (r.1 matches ResolveAction::InsertUser(u) && (event matches
            ResolveEvent::ProfileFetched(p) && exists|suffix: u32|
                #[trigger] spec_new_user(u, p@, string_views(admin_emails@), suffix))),
            ActionKind::DoneOk(id) => r.1 == ResolveAction::Done(Ok::<
                uuid::Uuid,
                ResolveError,
            >(id)),
            ActionKind::DoneErr(e) => r.1 == ResolveAction::Done(Err::<
                uuid::Uuid,
                ResolveError,
            >(e)),
        },
{
    match (phase, event) {
        (ResolvePhase::AwaitingLookup, ResolveEvent::SubjectFound(id)) => (
            ResolvePhase::Finished,
            ResolveAction::Done(Ok(id)),
        ),
        (ResolvePhase::AwaitingLookup, ResolveEvent::SubjectMissing) => (
            ResolvePhase::AwaitingProfile,
            ResolveAction::FetchProfile,
        ),
        (ResolvePhase::AwaitingProfile, ResolveEvent::ProfileFetched(p)) => (
            ResolvePhase::AwaitingInsert,
            ResolveAction::InsertUser(build_new_user_fresh(&p, admin_emails)),
        ),
        (ResolvePhase::AwaitingProfile, ResolveEvent::ProfileUnavailable) => (
            ResolvePhase::Finished,
            ResolveAction::Done(Err(ResolveError::ProviderUnavailable)),
        ),
        (ResolvePhase::AwaitingInsert, ResolveEvent::InsertOk(id)) => (
            ResolvePhase::Finished,
            ResolveAction::Done(Ok(id)),
        ),
        (ResolvePhase::AwaitingInsert, ResolveEvent::InsertDuplicate) => (
            ResolvePhase::AwaitingRetryLookup,
            ResolveAction::LookupSubject,
        ),
        (ResolvePhase::AwaitingInsert, ResolveEvent::InsertFailed) => (
            ResolvePhase::Finished,
            ResolveAction::Done(Err(ResolveError::InternalError)),
        ),
        (ResolvePhase::AwaitingRetryLookup, ResolveEvent::SubjectFound(id)) => (
            ResolvePhase::Finished,
            ResolveAction::Done(Ok(id)),
        ),
        (ResolvePhase::AwaitingRetryLookup, ResolveEvent::SubjectMissing) => (
            ResolvePhase::Finished,
            ResolveAction::Done(Err(ResolveError::InternalError)),
        ),
        _ => (ResolvePhase::Finished, ResolveAction::Done(Err(ResolveError::InternalError))),
    }
}

/// A profile-fetch failure during first-use resolution yields
/// ProviderUnavailable, and no insert is ever requested on that path: the
/// resolver asks for an insert only in answer to a fetched profile, so a
/// failed fetch leaves no partial user row behind.
pub proof fn lemma_profile_failure_persists_nothing(phase: ResolvePhase, event: ResolveEvent)
    ensures
        spec_transition(ResolvePhase::AwaitingProfile, ResolveEvent::ProfileUnavailable) == (
            ResolvePhase::Finished,
            ActionKind::DoneErr(ResolveError::ProviderUnavailable),
        ),
        spec_transition(phase, event).1 is Insert ==> event is ProfileFetched,
{
}

} // verus!

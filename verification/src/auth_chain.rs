//! The credential provider chain at work: one request for a credential of
//! one kind, answered by the providers in the order in which they were
//! registered, and the store of the credentials that may be kept.

use vstd::prelude::*;
use crate::auth::{AuthProvider, CredKind, Credential, CredentialView, ProviderResponse};
use crate::common::ErrorChain;

verus! {

/// Where a request stands.
#[derive(Clone, Copy, Debug, PartialEq, Eq, Structural)]
pub enum RequestStage {
    /// The next provider can be picked.
    Ready,
    /// A provider is being tried and has not answered.
    Awaiting,
    /// A provider gave a credential.
    Granted,
    /// Every provider of the kind was tried as often as it may be. Only
    /// this is fatal to the opening of a session.
    Exhausted,
    /// A provider failed.
    Failed,
}

/// What the caller of `next_provider` has to do next.
#[derive(Clone, Copy, Debug, PartialEq, Eq, Structural)]
pub enum AuthAction {
    /// Try the provider with this index. `attempt` counts the tries of
    /// this provider for this request, from 1.
    Invoke { provider: usize, attempt: usize },
    /// No provider is left.
    Exhausted,
    /// The request is not ready for another provider.
    OutOfTurn,
}

/// What became of an answer.
#[derive(Debug)]
pub enum AuthOutcome {
    Granted(Credential),
    /// The provider gave nothing that fits: pick the next provider.
    Again,
    Failed(ErrorChain),
    /// No provider was being tried.
    OutOfTurn,
}

/// Whether the answer is a credential of the shape that `kind` asks for.
pub open spec fn grants(response: ProviderResponse, kind: CredKind) -> bool {
    match response {
        ProviderResponse::Success(c) => c@.fits(kind),
        _ => false,
    }
}

/// An ordered list of providers, opened once for a session.
#[derive(Debug)]
pub struct Auth {
    providers: Vec<AuthProvider>,
}

/// One request for a credential of one kind for one realm.
#[derive(Debug)]
pub struct CredentialRequest {
    kind: CredKind,
    realm: String,
    limits: Vec<usize>,
    attempts: Vec<usize>,
    cursor: usize,
    stage: RequestStage,
}

/// A request as plain values.
pub struct RequestView {
    pub kind: CredKind,
    pub realm: Seq<char>,
    /// How often each provider may be tried for this request.
    pub limits: Seq<usize>,
    /// How often each provider was tried for this request.
    pub attempts: Seq<usize>,
    /// The provider at which the request stands.
    pub cursor: usize,
    pub stage: RequestStage,
}

/// The limits that a list of providers sets to a request of `kind`.
pub open spec fn limits_for(providers: Seq<AuthProvider>, kind: CredKind) -> Seq<usize> {
    Seq::new(providers.len(), |i: int| providers[i].limit_for(kind))
}

/// The first provider from `from` on that may still be tried, or the
/// number of providers if there is none.
pub open spec fn next_open(limits: Seq<usize>, attempts: Seq<usize>, from: int) -> int
    decreases limits.len() - from,
{
    if from >= limits.len() {
        limits.len() as int
    } else if attempts[from] < limits[from] {
        from
    } else {
        next_open(limits, attempts, from + 1)
    }
}

impl RequestView {
    /// A request before any provider was tried.
    pub open spec fn fresh(providers: Seq<AuthProvider>, kind: CredKind, realm: Seq<char>) -> RequestView {
        RequestView {
            kind,
            realm,
            limits: limits_for(providers, kind),
            attempts: Seq::new(providers.len(), |i: int| 0usize),
            cursor: 0,
            stage: RequestStage::Ready,
        }
    }

    /// Whether the provider was tried as often as it may be.
    pub open spec fn spent(self, i: int) -> bool {
        self.attempts[i] == self.limits[i]
    }

    /// What holds of one provider in a request: it was not tried more
    /// often than it may be; every provider before the cursor is spent;
    /// and no provider after the cursor was tried yet.
    pub open spec fn provider_ok(self, i: int) -> bool {
        &&& self.attempts[i] <= self.limits[i]
        &&& i < self.cursor ==> self.spent(i)
        &&& i > self.cursor ==> self.attempts[i] == 0
    }

    /// What holds of every request.
    pub open spec fn wf(self) -> bool {
        &&& self.limits.len() == self.attempts.len()
        &&& self.cursor <= self.limits.len() <= usize::MAX
        &&& forall|i: int| 0 <= i < self.limits.len() ==> #[trigger] self.provider_ok(i)
        &&& (self.stage == RequestStage::Awaiting || self.stage == RequestStage::Granted)
            ==> self.cursor < self.limits.len() && self.attempts[self.cursor as int] >= 1
        &&& self.stage == RequestStage::Exhausted ==> self.cursor == self.limits.len()
    }

    /// Picking the next provider: the first one from the cursor on that
    /// may still be tried. The try is counted at once.
    pub open spec fn spec_next(self) -> (RequestView, AuthAction) {
        if self.stage != RequestStage::Ready {
            (self, AuthAction::OutOfTurn)
        } else {
            let j = next_open(self.limits, self.attempts, self.cursor as int);
            if j >= self.limits.len() {
                (
                    RequestView {
                        cursor: self.limits.len() as usize,
                        stage: RequestStage::Exhausted,
                        ..self
                    },
                    AuthAction::Exhausted,
                )
            } else {
                (
                    RequestView {
                        cursor: j as usize,
                        attempts: self.attempts.update(j, (self.attempts[j] + 1) as usize),
                        stage: RequestStage::Awaiting,
                        ..self
                    },
                    AuthAction::Invoke {
                        provider: j as usize,
                        attempt: (self.attempts[j] + 1) as usize,
                    },
                )
            }
        }
    }

    /// The stage after the provider answered. `granted` says that it gave a
    /// credential of the right shape, `fatal` that it failed.
    pub open spec fn spec_respond(self, granted: bool, fatal: bool) -> RequestView {
        if self.stage != RequestStage::Awaiting {
            self
        } else if granted {
            RequestView { stage: RequestStage::Granted, ..self }
        } else if fatal {
            RequestView { stage: RequestStage::Failed, ..self }
        } else {
            RequestView { stage: RequestStage::Ready, ..self }
        }
    }

    /// The stage after the credential that was granted was turned down by
    /// the server.
    pub open spec fn spec_rejected(self) -> RequestView {
        if self.stage != RequestStage::Granted {
            self
        } else {
            RequestView { stage: RequestStage::Ready, ..self }
        }
    }
}

/// `next_open` finds a provider that may be tried, at or after `from`, and
/// none between `from` and it may be tried.
pub proof fn next_open_is_first(limits: Seq<usize>, attempts: Seq<usize>, from: int)
    requires
        0 <= from <= limits.len(),
        limits.len() == attempts.len(),
    ensures
        from <= next_open(limits, attempts, from) <= limits.len(),
        next_open(limits, attempts, from) < limits.len() ==> attempts[next_open(
            limits,
            attempts,
            from,
        )] < limits[next_open(limits, attempts, from)],
        forall|i: int|
            from <= i < next_open(limits, attempts, from) ==> !(#[trigger] attempts[i] < limits[i]),
    decreases limits.len() - from,
{
    if from < limits.len() && !(attempts[from] < limits[from]) {
        next_open_is_first(limits, attempts, from + 1);
    }
}

/// Every step keeps a request well formed.
pub proof fn request_steps_keep_wf(s: RequestView, granted: bool, fatal: bool)
    requires
        s.wf(),
    ensures
        s.spec_next().0.wf(),
        s.spec_respond(granted, fatal).wf(),
        s.spec_rejected().wf(),
{
    let t = s.spec_next().0;
    if s.stage == RequestStage::Ready {
        next_open_is_first(s.limits, s.attempts, s.cursor as int);
        let j = next_open(s.limits, s.attempts, s.cursor as int);
        assert forall|i: int| 0 <= i < t.limits.len() implies #[trigger] t.provider_ok(i) by {
            assert(s.provider_ok(i));
            if s.cursor <= i < j {
                assert(!(s.attempts[i] < s.limits[i]));
            }
        }
    }
    let r = s.spec_respond(granted, fatal);
    assert forall|i: int| 0 <= i < r.limits.len() implies #[trigger] r.provider_ok(i) by {
        assert(s.provider_ok(i));
    }
    let q = s.spec_rejected();
    assert forall|i: int| 0 <= i < q.limits.len() implies #[trigger] q.provider_ok(i) by {
        assert(s.provider_ok(i));
    }
}

/// A fresh request is well formed, and a provider of another kind can never
/// be tried for it.
pub proof fn fresh_request_is_wf(providers: Seq<AuthProvider>, kind: CredKind, realm: Seq<char>)
    requires
        providers.len() <= usize::MAX,
    ensures
        RequestView::fresh(providers, kind, realm).wf(),
        forall|i: int|
            0 <= i < providers.len() && providers[i].kind != kind ==> (#[trigger] RequestView::fresh(
                providers,
                kind,
                realm,
            ).limits[i]) == 0,
{
    let s = RequestView::fresh(providers, kind, realm);
    assert forall|i: int| 0 <= i < s.limits.len() implies #[trigger] s.provider_ok(i) by {}
}

/// The chain tries no provider more often than the provider allows, and it
/// tries no provider before every provider that stands before it is spent:
/// when a provider is picked, each provider before it was tried exactly as
/// often as it may be, and no provider after it was tried at all.
pub proof fn providers_tried_in_order(s: RequestView)
    requires
        s.wf(),
        s.spec_next().1 is Invoke,
    ensures
        ({
            let t = s.spec_next().0;
            let j = s.spec_next().1->provider as int;
            &&& 0 <= j < s.limits.len()
            &&& s.spec_next().1->attempt == t.attempts[j]
            &&& 1 <= t.attempts[j] <= t.limits[j]
            &&& t.attempts[j] == s.attempts[j] + 1
            &&& forall|i: int|
                0 <= i < j ==> (#[trigger] t.spent(i)) && t.attempts[i] == s.attempts[i]
            &&& forall|i: int| j < i < s.limits.len() ==> (#[trigger] t.attempts[i]) == 0
        }),
{
    request_steps_keep_wf(s, false, false);
    next_open_is_first(s.limits, s.attempts, s.cursor as int);
    let t = s.spec_next().0;
    let j = s.spec_next().1->provider as int;
    assert forall|i: int| 0 <= i < j implies (#[trigger] t.spent(i)) && t.attempts[i]
        == s.attempts[i] by {
        assert(t.provider_ok(i));
    }
    assert forall|i: int| j < i < s.limits.len() implies (#[trigger] t.attempts[i]) == 0 by {
        assert(t.provider_ok(i));
    }
}

/// The chain gives up only when every provider is spent.
pub proof fn exhausted_means_all_spent(s: RequestView)
    requires
        s.wf(),
        s.spec_next().1 is Exhausted,
    ensures
        forall|i: int| 0 <= i < s.limits.len() ==> #[trigger] s.spent(i),
        s.spec_next().0.stage == RequestStage::Exhausted,
{
    next_open_is_first(s.limits, s.attempts, s.cursor as int);
    assert forall|i: int| 0 <= i < s.limits.len() implies #[trigger] s.spent(i) by {
        assert(s.provider_ok(i));
    }
}

/// A provider that has no credential does not fail the request: the chain
/// is ready for the next pick.
pub proof fn retry_is_not_fatal(s: RequestView)
    requires
        s.wf(),
        s.stage == RequestStage::Awaiting,
    ensures
        s.spec_respond(false, false).stage == RequestStage::Ready,
        s.spec_respond(false, false).attempts == s.attempts,
{
}

impl View for CredentialRequest {
    type V = RequestView;

    closed spec fn view(&self) -> RequestView {
        RequestView {
            kind: self.kind,
            realm: self.realm@,
            limits: self.limits@,
            attempts: self.attempts@,
            cursor: self.cursor,
            stage: self.stage,
        }
    }
}

impl Auth {
    /// The providers of the chain, in their order.
    pub closed spec fn providers(&self) -> Seq<AuthProvider> {
        self.providers@
    }

    /// Opens the chain from an ordered list of providers.
    pub fn open(providers: Vec<AuthProvider>) -> (auth: Auth)
        ensures
            auth.providers() == providers@,
    {
        Auth { providers }
    }

    pub fn provider_count(&self) -> (count: usize)
        ensures
            count == self.providers().len(),
    {
        self.providers.len()
    }

    /// The provider with this index, if there is one.
    pub fn provider(&self, index: usize) -> (found: Option<AuthProvider>)
        ensures
            found == (if index < self.providers().len() {
                Some(self.providers()[index as int])
            } else {
                None
            }),
    {
        if index < self.providers.len() {
            Some(self.providers[index])
        } else {
            None
        }
    }

    /// Begins a request for a credential of `kind` for `realm`. No
    /// provider is tried yet.
    pub fn first_credentials(&self, kind: CredKind, realm: &str) -> (request: CredentialRequest)
        ensures
            request.wf(),
            request@ == RequestView::fresh(self.providers(), kind, realm@),
    {
        let mut limits: Vec<usize> = Vec::new();
        let mut attempts: Vec<usize> = Vec::new();
        let mut i: usize = 0;
        while i < self.providers.len()
            invariant
                i <= self.providers.len(),
                limits@.len() == i,
                attempts@.len() == i,
                forall|j: int| 0 <= j < i ==> limits@[j] == self.providers@[j].limit_for(kind),
                forall|j: int| 0 <= j < i ==> attempts@[j] == 0,
            decreases self.providers.len() - i,
        {
            limits.push(self.providers[i].limit(kind));
            attempts.push(0);
            i += 1;
        }
        let request = CredentialRequest {
            kind,
            realm: realm.to_owned(),
            limits,
            attempts,
            cursor: 0,
            stage: RequestStage::Ready,
        };
        proof {
            let want = RequestView::fresh(self.providers(), kind, realm@);
            assert(request@.limits =~= want.limits);
            assert(request@.attempts =~= want.attempts);
            fresh_request_is_wf(self.providers(), kind, realm@);
        }
        request
    }
}

impl CredentialRequest {
    pub open spec fn wf(&self) -> bool {
        self@.wf()
    }

    pub fn stage(&self) -> (stage: RequestStage)
        ensures
            stage == self@.stage,
    {
        self.stage
    }

    pub fn kind(&self) -> (kind: CredKind)
        ensures
            kind == self@.kind,
    {
        self.kind
    }

    pub fn realm(&self) -> (realm: &str)
        ensures
            realm@ == self@.realm,
    {
        self.realm.as_str()
    }

    /// How often the provider was tried for this request.
    pub fn attempts(&self, provider: usize) -> (count: usize)
        ensures
            count == (if provider < self@.attempts.len() {
                self@.attempts[provider as int]
            } else {
                0
            }),
    {
        if provider < self.attempts.len() {
            self.attempts[provider]
        } else {
            0
        }
    }

    /// Picks the provider to try next and counts the try. Every provider
    /// before the one picked is spent by then, and none after it was tried.
    pub fn next_provider(&mut self) -> (action: AuthAction)
        requires
            old(self).wf(),
        ensures
            final(self).wf(),
            (final(self)@, action) == old(self)@.spec_next(),
    {
        if self.stage != RequestStage::Ready {
            return AuthAction::OutOfTurn;
        }
        let mut j: usize = self.cursor;
        while j < self.limits.len() && self.attempts[j] >= self.limits[j]
            invariant
                self.wf(),
                *self == *old(self),
                self.cursor <= j <= self.limits.len(),
                next_open(self.limits@, self.attempts@, j as int) == next_open(
                    self.limits@,
                    self.attempts@,
                    self.cursor as int,
                ),
            decreases self.limits.len() - j,
        {
            j += 1;
        }
        proof {
            request_steps_keep_wf(old(self)@, false, false);
        }
        if j >= self.limits.len() {
            self.cursor = self.limits.len();
            self.stage = RequestStage::Exhausted;
            AuthAction::Exhausted
        } else {
            let attempt: usize = self.attempts[j] + 1;
            self.attempts[j] = attempt;
            self.cursor = j;
            self.stage = RequestStage::Awaiting;
            AuthAction::Invoke { provider: j, attempt }
        }
    }

    /// Takes the answer of the provider that was tried. A credential that
    /// fits the kind is granted; a failure fails the request; anything else
    /// leaves the request ready for the next pick.
    pub fn respond(&mut self, response: ProviderResponse) -> (outcome: AuthOutcome)
        requires
            old(self).wf(),
        ensures
            final(self).wf(),
            final(self)@ == old(self)@.spec_respond(
                grants(response, old(self)@.kind),
                response is Fatal,
            ),
            match outcome {
                AuthOutcome::OutOfTurn => old(self)@.stage != RequestStage::Awaiting,
                AuthOutcome::Granted(credential) => old(self)@.stage == RequestStage::Awaiting
                    && response == ProviderResponse::Success(credential) && credential@.fits(
                    old(self)@.kind,
                ),
                AuthOutcome::Failed(error) => old(self)@.stage == RequestStage::Awaiting
                    && response == ProviderResponse::Fatal(error),
                AuthOutcome::Again => old(self)@.stage == RequestStage::Awaiting && !(
                response is Fatal) && !grants(response, old(self)@.kind),
            },
    {
        proof {
            request_steps_keep_wf(
                old(self)@,
                grants(response, old(self)@.kind),
                response is Fatal,
            );
        }
        if self.stage != RequestStage::Awaiting {
            return AuthOutcome::OutOfTurn;
        }
        match response {
            ProviderResponse::Success(credential) => {
                if credential.fits(self.kind) {
                    self.stage = RequestStage::Granted;
                    AuthOutcome::Granted(credential)
                } else {
                    self.stage = RequestStage::Ready;
                    AuthOutcome::Again
                }
            },
            ProviderResponse::Retry => {
                self.stage = RequestStage::Ready;
                AuthOutcome::Again
            },
            ProviderResponse::Fatal(error) => {
                self.stage = RequestStage::Failed;
                AuthOutcome::Failed(error)
            },
        }
    }

    /// The server turned the granted credential down: the request goes on
    /// with the next pick. Says whether a credential was out.
    pub fn rejected(&mut self) -> (resumed: bool)
        requires
            old(self).wf(),
        ensures
            final(self).wf(),
            final(self)@ == old(self)@.spec_rejected(),
            resumed == (old(self)@.stage == RequestStage::Granted),
    {
        proof {
            request_steps_keep_wf(old(self)@, false, false);
        }
        if self.stage == RequestStage::Granted {
            self.stage = RequestStage::Ready;
            true
        } else {
            false
        }
    }
}

/// One credential that was kept, with the kind and realm that it is for.
#[derive(Debug)]
pub struct StoredCredential {
    pub kind: CredKind,
    pub realm: String,
    pub credential: Credential,
}

/// The credentials that were kept beyond the sessions that got them.
#[derive(Debug)]
pub struct CredentialStore {
    entries: Vec<StoredCredential>,
}

/// What the store holds as plain values, in the order in which it was
/// kept: the kind, the realm and the credential.
pub type StoreView = Seq<(CredKind, Seq<char>, CredentialView)>;

/// The credential that the store offers for the kind and realm among its
/// first `n` entries: the one that was kept last.
pub open spec fn offered(entries: StoreView, kind: CredKind, realm: Seq<char>, n: nat) -> Option<
    CredentialView,
>
    decreases n,
{
    if n == 0 {
        None
    } else if entries[n - 1].0 == kind && entries[n - 1].1 == realm {
        Some(entries[n - 1].2)
    } else {
        offered(entries, kind, realm, (n - 1) as nat)
    }
}

/// What holds of every store: it holds only credentials that may be kept.
pub open spec fn store_wf(entries: StoreView) -> bool {
    forall|i: int| 0 <= i < entries.len() ==> (#[trigger] entries[i]).2.may_save()
}

/// What keeping a credential makes of the store: a credential that may not
/// be kept leaves the store as it is.
pub open spec fn spec_save(
    entries: StoreView,
    kind: CredKind,
    realm: Seq<char>,
    credential: CredentialView,
) -> StoreView {
    if credential.may_save() {
        entries.push((kind, realm, credential))
    } else {
        entries
    }
}

/// Keeping a credential keeps the store well formed.
pub proof fn save_keeps_store_wf(
    entries: StoreView,
    kind: CredKind,
    realm: Seq<char>,
    credential: CredentialView,
)
    requires
        store_wf(entries),
    ensures
        store_wf(spec_save(entries, kind, realm, credential)),
{
}

/// What the store offers is found among its entries, so it may be kept.
pub proof fn offered_may_be_kept(entries: StoreView, kind: CredKind, realm: Seq<char>, n: nat)
    requires
        store_wf(entries),
        n <= entries.len(),
    ensures
        offered(entries, kind, realm, n) matches Some(c) ==> c.may_save(),
    decreases n,
{
    if n > 0 && !(entries[n - 1].0 == kind && entries[n - 1].1 == realm) {
        offered_may_be_kept(entries, kind, realm, (n - 1) as nat);
    }
}

/// What the store offers depends on the entries before `n` alone.
pub proof fn offered_reads_prefix(
    entries: StoreView,
    others: StoreView,
    kind: CredKind,
    realm: Seq<char>,
    n: nat,
)
    requires
        n <= entries.len(),
        n <= others.len(),
        forall|i: int| 0 <= i < n ==> entries[i] == others[i],
    ensures
        offered(entries, kind, realm, n) == offered(others, kind, realm, n),
    decreases n,
{
    if n > 0 {
        offered_reads_prefix(entries, others, kind, realm, (n - 1) as nat);
    }
}

/// A credential that may not be kept is never seen in the store: the store
/// is the same after the attempt to keep it, and so is what it offers for
/// every kind and realm. A store that offered nothing for the realm before
/// offers nothing after.
pub proof fn unsaveable_never_stored(
    entries: StoreView,
    kind: CredKind,
    realm: Seq<char>,
    credential: CredentialView,
)
    requires
        !credential.may_save(),
    ensures
        spec_save(entries, kind, realm, credential) == entries,
        forall|k: CredKind, r: Seq<char>|
            #[trigger] offered(
                spec_save(entries, kind, realm, credential),
                k,
                r,
                spec_save(entries, kind, realm, credential).len(),
            ) == offered(entries, k, r, entries.len()),
{
}

/// A credential that may be kept is offered again for its kind and realm,
/// and what the store offers for any other kind or realm stays as it was.
pub proof fn saved_is_offered(
    entries: StoreView,
    kind: CredKind,
    realm: Seq<char>,
    credential: CredentialView,
    other_kind: CredKind,
    other_realm: Seq<char>,
)
    requires
        credential.may_save(),
    ensures
        offered(
            spec_save(entries, kind, realm, credential),
            kind,
            realm,
            entries.len() + 1,
        ) == Some(credential),
        other_kind != kind || other_realm != realm ==> offered(
            spec_save(entries, kind, realm, credential),
            other_kind,
            other_realm,
            entries.len() + 1,
        ) == offered(entries, other_kind, other_realm, entries.len()),
{
    let after = spec_save(entries, kind, realm, credential);
    offered_reads_prefix(after, entries, other_kind, other_realm, entries.len());
}

impl View for StoredCredential {
    type V = (CredKind, Seq<char>, CredentialView);

    open spec fn view(&self) -> (CredKind, Seq<char>, CredentialView) {
        (self.kind, self.realm@, self.credential@)
    }
}

impl View for CredentialStore {
    type V = StoreView;

    closed spec fn view(&self) -> StoreView {
        Seq::new(self.entries@.len(), |i: int| self.entries@[i]@)
    }
}

impl CredentialStore {
    pub open spec fn wf(&self) -> bool {
        store_wf(self@)
    }

    /// A store that holds nothing.
    pub fn new() -> (store: CredentialStore)
        ensures
            store.wf(),
            store@.len() == 0,
    {
        CredentialStore { entries: Vec::new() }
    }

    /// The number of credentials that the store holds.
    pub fn len(&self) -> (count: usize)
        ensures
            count == self@.len(),
    {
        self.entries.len()
    }

    /// Keeps a copy of the credential for the kind and realm, if it may be
    /// kept. Says whether it was kept.
    pub fn save(&mut self, kind: CredKind, realm: &str, credential: &Credential) -> (kept: bool)
        requires
            old(self).wf(),
        ensures
            final(self).wf(),
            final(self)@ == spec_save(old(self)@, kind, realm@, credential@),
            kept == credential@.may_save(),
    {
        if credential.may_save() {
            self.entries.push(
                StoredCredential { kind, realm: realm.to_owned(), credential: credential.dup() },
            );
            assert(self@ =~= old(self)@.push((kind, realm@, credential@)));
            true
        } else {
            false
        }
    }

    /// A copy of the credential that the store offers for the kind and
    /// realm: the one that was kept last.
    pub fn lookup(&self, kind: CredKind, realm: &str) -> (found: Option<Credential>)
        requires
            self.wf(),
        ensures
            match offered(self@, kind, realm@, self@.len()) {
                Some(c) => found is Some && found.unwrap()@ == c && c.may_save(),
                None => found is None,
            },
    {
        let wanted: String = realm.to_owned();
        let mut n: usize = self.entries.len();
        while n > 0
            invariant
                n <= self.entries.len(),
                self.wf(),
                wanted@ == realm@,
                offered(self@, kind, realm@, n as nat) == offered(self@, kind, realm@, self@.len()),
            decreases n,
        {
            let entry = &self.entries[n - 1];
            assert(self@[n - 1] == entry@);
            if entry.kind == kind && entry.realm == wanted {
                proof {
                    offered_may_be_kept(self@, kind, realm@, n as nat);
                }
                return Some(entry.credential.dup());
            }
            n -= 1;
        }
        None
    }
}

} // verus!

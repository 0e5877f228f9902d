//! The domain of this server: unknown until it is settled, and then fixed.

use crate::ip_literal;
use crate::spacing;
use crate::text;
use vstd::prelude::*;
use vstd::slice::slice_subrange;

verus! {

/// The places at which domains are kept. A domain that is settled stays at its
/// place for good.
pub struct DomainPlaces {
    confirmed: Vec<Option<String>>,
}

impl View for DomainPlaces {
    type V = Seq<Option<Seq<char>>>;

    /// The settled domain at each place.
    closed spec fn view(&self) -> Seq<Option<Seq<char>>> {
        self.confirmed@.map_values(|d: Option<String>| text::string_view(d))
    }
}

/// The domain of this server, by the place at which it is kept. All clones speak of
/// one place, so a domain that is settled through one of them is settled for all.
#[derive(Clone, Copy)]
pub struct LocalDomain {
    place: usize,
}

impl LocalDomain {
    /// The place at which the domain is kept.
    pub closed spec fn place(self) -> int {
        self.place as int
    }

    /// The domain is kept at one of these places.
    pub open spec fn is_among(self, places: Seq<Option<Seq<char>>>) -> bool {
        0 <= self.place() < places.len()
    }

    /// The settled domain.
    pub open spec fn domain_in(self, places: Seq<Option<Seq<char>>>) -> Option<Seq<char>> {
        places[self.place()]
    }
}

/// The name under which a server goes: its settled domain, else `localhost`.
pub open spec fn domain_name(domain: Option<Seq<char>>) -> Seq<char> {
    match domain {
        Some(d) => d,
        None => "localhost"@,
    }
}

/// The domain after one more is settled: one that is settled stays.
pub open spec fn settled(domain: Option<Seq<char>>, next: Seq<char>) -> Option<Seq<char>> {
    match domain {
        Some(d) => Some(d),
        None => Some(next),
    }
}

/// The places after a domain is settled.
pub open spec fn settled_in(
    places: Seq<Option<Seq<char>>>,
    domain: LocalDomain,
    next: Seq<char>,
) -> Seq<Option<Seq<char>>> {
    places.update(domain.place(), settled(domain.domain_in(places), next))
}

impl DomainPlaces {
    /// No place yet.
    pub fn new() -> (r: Self)
        ensures
            r@ == Seq::<Option<Seq<char>>>::empty(),
    {
        let r: DomainPlaces = DomainPlaces { confirmed: Vec::new() };
        assert(r@ =~= Seq::empty());
        r
    }

    /// Whether the domain is kept here.
    pub fn holds(&self, domain: &LocalDomain) -> (r: bool)
        ensures
            r == domain.is_among(self@),
    {
        domain.place < self.confirmed.len()
    }
}

impl LocalDomain {
    /// A domain that is not settled yet, at a place of its own.
    pub fn unresolved(places: &mut DomainPlaces) -> (r: Self)
        ensures
            final(places)@ == old(places)@.push(None),
            r.place() == old(places)@.len(),
    {
        let place: usize = places.confirmed.len();
        places.confirmed.push(None);
        assert(places@ =~= old(places)@.push(None));
        LocalDomain { place }
    }

    /// The name under which the server goes.
    pub fn as_str<'a>(&self, places: &'a DomainPlaces) -> (r: &'a str)
        requires
            self.is_among(places@),
        ensures
            r@ == domain_name(self.domain_in(places@)),
    {
        match &places.confirmed[self.place] {
            Some(d) => d.as_str(),
            None => "localhost",
        }
    }

    /// Whether the domain is settled.
    pub fn is_confirmed(&self, places: &DomainPlaces) -> (r: bool)
        requires
            self.is_among(places@),
        ensures
            r == (self.domain_in(places@) is Some),
    {
        places.confirmed[self.place].is_some()
    }

    /// Settles the domain, for all clones. One that is settled stays.
    pub fn set_confirmed(&self, places: &mut DomainPlaces, domain: String)
        requires
            self.is_among(old(places)@),
        ensures
            final(places)@ == settled_in(old(places)@, *self, domain@),
    {
        if places.confirmed[self.place].is_none() {
            places.confirmed[self.place] = Some(domain);
        }
        assert(places@ =~= settled_in(old(places)@, *self, domain@));
    }

    /// Whether the server goes under the name.
    pub fn is(&self, places: &DomainPlaces, name: &str) -> (r: bool)
        requires
            self.is_among(places@),
        ensures
            r == (domain_name(self.domain_in(places@)) == name@),
    {
        text::same_str(self.as_str(places), name)
    }
}

/// What the database says of the domain.
pub enum StoredDomain {
    Confirmed(String),
    Missing,
    /// It could not be read.
    Failed,
}

/// What came of settling a domain in the database.
pub enum ConfirmOutcome {
    Confirmed(String),
    /// Another one was settled before.
    AlreadyConfirmed(String),
    /// It could not be written.
    Failed,
}

/// The domain that is to be settled in the database when the server starts: the
/// configured one, where the database knows none yet.
pub fn domain_to_confirm(stored: &StoredDomain, legacy_env_domain: Option<String>) -> (r: Option<
    String,
>)
    ensures
        r == (if stored is Missing {
            legacy_env_domain
        } else {
            None
        }),
{
    match stored {
        StoredDomain::Missing => legacy_env_domain,
        _ => None,
    }
}

/// The domain with which the server starts.
pub open spec fn starting_domain(stored: StoredDomain, outcome: Option<ConfirmOutcome>) -> Option<
    Seq<char>,
> {
    match (stored, outcome) {
        (StoredDomain::Confirmed(d), _) => Some(d@),
        (StoredDomain::Missing, Some(ConfirmOutcome::Confirmed(d))) => Some(d@),
        (StoredDomain::Missing, Some(ConfirmOutcome::AlreadyConfirmed(d))) => Some(d@),
        _ => None,
    }
}

/// The domain with which the server starts, at a place of its own. `outcome` is
/// what came of settling the domain that `domain_to_confirm` gives, where it gives
/// one.
pub fn resolve_local_domain(
    stored: StoredDomain,
    outcome: Option<ConfirmOutcome>,
    places: &mut DomainPlaces,
) -> (r: LocalDomain)
    ensures
        final(places)@ == old(places)@.push(starting_domain(stored, outcome)),
        r.place() == old(places)@.len(),
{
    let ghost before = places@;
    let domain: LocalDomain = LocalDomain::unresolved(places);
    match (stored, outcome) {
        (StoredDomain::Confirmed(d), _) => domain.set_confirmed(places, d),
        (StoredDomain::Missing, Some(ConfirmOutcome::Confirmed(d))) => domain.set_confirmed(
            places,
            d,
        ),
        (StoredDomain::Missing, Some(ConfirmOutcome::AlreadyConfirmed(d))) => domain.set_confirmed(
            places,
            d,
        ),
        _ => {},
    }
    assert(places@ =~= before.push(starting_domain(stored, outcome)));
    domain
}

// ---------------------------------------------------------------------------
// The domain that a request is addressed to.
// ---------------------------------------------------------------------------
/// A host without its port. What stands in square brackets is an address without
/// them; a text with two colons or more is an address as it is.
pub open spec fn without_port(host: Seq<char>) -> Seq<char> {
    if text::starts_with(host, "["@) {
        match text::find_from(host, "]"@, 1) {
            Some(k) => host.subrange(1, k),
            None => host,
        }
    } else {
        let parts = text::split(host, ':');
        if parts.len() == 2 {
            parts[0]
        } else {
            host
        }
    }
}

/// A host without its port.
pub fn strip_port(host: &[char]) -> (r: &[char])
    ensures
        r@ == without_port(host@),
{
    proof {
        reveal_strlit("[");
        reveal_strlit("]");
    }
    if text::has_prefix(host, "[") {
        let close: Vec<char> = text::chars_of("]");
        return match text::find(host, close.as_slice(), 1) {
            Some(k) => slice_subrange(host, 1, k),
            None => host,
        };
    }
    let k: usize = text::next_char(host, ':', 0);
    let parts: Vec<Vec<char>> = text::split_at_char(host, ':');
    proof {
        assert(text::contents(parts@).len() == parts@.len());
        text::lemma_pieces_step(host@, text::just(':'), 0, seq![]);
        assert(Seq::<char>::empty() + host@.subrange(0, k as int) =~= host@.subrange(0, k as int));
    }
    if parts.len() == 2 {
        slice_subrange(host, 0, k)
    } else {
        host
    }
}

/// A host in the form in which domains are compared: without port and trailing
/// dots, in small letters.
pub open spec fn normal_host(host: Seq<char>) -> Seq<char> {
    text::ascii_lower(text::without_trailing(without_port(text::trimmed(host)), '.'))
}

/// The domain that the server can take from the host that a request names. A
/// server needs a name of its own: neither nothing, nor `localhost`, nor a bare
/// address will do.
pub open spec fn domain_candidate(host: Seq<char>) -> Option<Seq<char>> {
    let name = normal_host(host);
    if name.len() == 0 || name == "localhost"@ || ip_literal::ip_text(name) {
        None
    } else {
        Some(name)
    }
}

/// The domain that the server can take from the host that a request names.
pub fn domain_candidate_from_host(host: &str) -> (r: Option<String>)
    ensures
        text::string_view(r) == domain_candidate(host@),
{
    let chars: Vec<char> = text::chars_of(host);
    let bare: &[char] = text::trim_end_char(strip_port(text::trim(chars.as_slice())), '.');
    let name: Vec<char> = text::lower(bare);
    if name.len() == 0 || text::is_text(name.as_slice(), "localhost") {
        return None;
    }
    if ip_literal::is_ip_text(name.as_slice()) {
        return None;
    }
    Some(text::string_of(name.as_slice()))
}

// ---------------------------------------------------------------------------
// Laws.
// ---------------------------------------------------------------------------
/// The first domain that is settled stays, whatever is settled after it.
pub proof fn law_first_domain_stays(first: Seq<char>, second: Seq<char>)
    ensures
        settled(settled(None, first), second) == Some(first),
{
}

/// Clones agree. Where a domain is settled through one of them, each has it then:
/// the one that is named, where none was settled before, and else the one that was
/// settled before.
pub proof fn law_clones_agree(
    places: Seq<Option<Seq<char>>>,
    domain: LocalDomain,
    other: LocalDomain,
    next: Seq<char>,
)
    requires
        domain.is_among(places),
        other.place() == domain.place(),
    ensures
        ({
            let after = settled_in(places, domain, next);
            let was = other.domain_in(places);
            &&& other.is_among(after)
            &&& other.domain_in(after) is Some
            &&& other.domain_in(after) == domain.domain_in(after)
            &&& was is None ==> domain_name(other.domain_in(after)) == next
            &&& was is Some ==> domain_name(other.domain_in(after)) == domain_name(was)
        }),
{
}

/// A settled domain never changes, whatever is settled at any place.
pub proof fn law_settled_domain_stays(
    places: Seq<Option<Seq<char>>>,
    domain: LocalDomain,
    other: LocalDomain,
    next: Seq<char>,
)
    requires
        domain.is_among(places),
        other.is_among(places),
        other.domain_in(places) is Some,
    ensures
        other.domain_in(settled_in(places, domain, next)) == other.domain_in(places),
{
}

/// A domain that the server takes from a request is neither empty, nor
/// `localhost`, nor a bare address, is in small letters and does not end with a
/// dot.
pub proof fn law_candidate_is_a_name(host: Seq<char>)
    ensures
        domain_candidate(host) matches Some(name) ==> name.len() > 0 && name != "localhost"@
            && !ip_literal::ip_text(name) && text::ascii_lower(name) == name && name.last() != '.',
{
    let bare = text::without_trailing(without_port(text::trimmed(host)), '.');
    let name = text::ascii_lower(bare);
    text::lemma_trimmed_back(without_port(text::trimmed(host)), text::just('.'));
    assert forall|i: int| 0 <= i < name.len() implies text::ascii_lower(name)[i] == name[i] by {
        assert(name[i] == text::ascii_lower_char(bare[i]));
    }
    assert(text::ascii_lower(name) =~= name);
}

/// Two texts that are split at the same places, but for a tail that is not split,
/// have as many pieces.
proof fn lemma_as_many_pieces(
    a: Seq<char>,
    b: Seq<char>,
    f: spec_fn(char) -> bool,
    i: int,
    p: Seq<char>,
    q: Seq<char>,
)
    requires
        a.len() <= b.len(),
        0 <= i <= b.len(),
        forall|k: int| 0 <= k < a.len() ==> f(#[trigger] a[k]) == f(b[k]),
        forall|k: int| a.len() <= k < b.len() ==> !f(#[trigger] b[k]),
    ensures
        text::pieces_from(a, f, i, p).len() == text::pieces_from(b, f, i, q).len(),
    decreases b.len() - i,
{
    if i < a.len() {
        assert(f(a[i]) == f(b[i]));
        if f(a[i]) {
            lemma_as_many_pieces(a, b, f, i + 1, seq![], seq![]);
        } else {
            lemma_as_many_pieces(a, b, f, i + 1, p.push(a[i]), q.push(b[i]));
        }
    } else if i < b.len() {
        lemma_as_many_pieces(a, b, f, i + 1, p, q.push(b[i]));
    }
}

/// The domain that the server takes from a host without `[` and white space is
/// the one that it takes from that domain.
pub proof fn law_candidate_is_its_own(host: Seq<char>)
    requires
        !host.contains('['),
        forall|i: int| 0 <= i < host.len() ==> !text::is_white_space(#[trigger] host[i]),
    ensures
        domain_candidate(host) matches Some(name) ==> domain_candidate(name) == Some(name),
{
    reveal_strlit("[");
    let f = text::just(':');
    let dots = text::just('.');
    let bare = without_port(host);
    let short = text::without_trailing(bare, '.');
    let name = text::ascii_lower(short);
    text::lemma_trimmed_back(bare, dots);
    spacing::lemma_trimmed_off_back(bare, dots);
    text::lemma_pieces(host, f, 0, seq![]);
    text::lemma_pieces_step(host, f, 0, seq![]);
    text::lemma_next_index(host, f, 0);
    if text::starts_with(host, "["@) {
        assert(host[0] == host.subrange(0, 1)[0]);
        assert(host.contains(host[0]));
    }
    let k: int = text::next_index(host, f, 0);
    assert(Seq::<char>::empty() + host.subrange(0, k) =~= host.subrange(0, k));
    assert(bare == host || bare =~= host.subrange(0, k));
    assert forall|i: int| 0 <= i < name.len() implies name[i] == text::ascii_lower_char(
        #[trigger] host[i],
    ) by {
        assert(name[i] == text::ascii_lower_char(short[i]));
        assert(short[i] == bare[i]);
        assert(bare[i] == host[i]);
    }
    assert forall|i: int| 0 <= i < name.len() implies !text::is_white_space(#[trigger] name[i]) by {
        assert(name[i] == text::ascii_lower_char(host[i]));
    }
    assert(text::trimmed(host) == host);
    assert(text::trimmed(name) == name);
    assert(without_port(name) == name) by {
        if text::starts_with(name, "["@) {
            assert(name[0] == name.subrange(0, 1)[0]);
            assert(name[0] == text::ascii_lower_char(host[0]));
            assert(host.contains(host[0]));
        }
        assert forall|i: int| 0 <= i < name.len() implies f(#[trigger] name[i]) == f(bare[i]) by {
            assert(name[i] == text::ascii_lower_char(short[i]));
            assert(short[i] == bare[i]);
        }
        lemma_as_many_pieces(name, bare, f, 0, seq![], seq![]);
        if text::split(host, ':').len() == 2 {
            assert(!bare.contains(':'));
            text::lemma_split_none(bare, ':');
        }
    }
    if name.len() > 0 {
        assert(name.last() == text::ascii_lower_char(short.last()));
    }
    assert(text::without_trailing(name, '.') == name);
    assert(text::ascii_lower(name) =~= name) by {
        assert forall|i: int| 0 <= i < name.len() implies text::ascii_lower(name)[i] == name[i] by {
            assert(name[i] == text::ascii_lower_char(short[i]));
        }
    }
}

/// A port behind a name makes no difference to the domain.
pub proof fn law_port_makes_no_difference(name: Seq<char>, port: Seq<char>)
    requires
        !text::starts_with(name, "["@),
        !name.contains(':'),
        !port.contains(':'),
    ensures
        without_port(name + ":"@ + port) == name,
        without_port(name) == name,
{
    reveal_strlit(":");
    reveal_strlit("[");
    let s = name + ":"@ + port;
    assert(":"@ =~= seq![':']);
    text::lemma_split_none(name, ':');
    text::lemma_split_none(port, ':');
    text::lemma_split_cons(name, ':', port);
    if text::starts_with(s, "["@) {
        assert(s.subrange(0, 1)[0] == '[');
        assert(name.len() > 0);
        assert(name.subrange(0, 1) =~= "["@);
    }
}

/// The domain that the server starts with is the one on record, else the one that is
/// confirmed now; whoever confirmed first counts.
pub proof fn law_server_starts_with_the_recorded_domain(
    d: String,
    other: String,
    outcome: Option<ConfirmOutcome>,
)
    ensures
        starting_domain(StoredDomain::Confirmed(d), outcome) == Some(d@),
        starting_domain(StoredDomain::Missing, Some(ConfirmOutcome::Confirmed(other))) == Some(
            other@,
        ),
        starting_domain(StoredDomain::Missing, Some(ConfirmOutcome::AlreadyConfirmed(other)))
            == Some(other@),
        starting_domain(StoredDomain::Missing, None) is None,
        starting_domain(StoredDomain::Missing, Some(ConfirmOutcome::Failed)) is None,
        starting_domain(StoredDomain::Failed, outcome) is None,
{
}

/// A server without a domain calls itself `localhost`; one that has a domain is called
/// by it.
pub proof fn law_server_is_called_by_its_domain(d: Seq<char>)
    ensures
        domain_name(Some(d)) == d,
        domain_name(None) == "localhost"@,
        domain_name(settled(None, d)) == d,
{
}

/// A name in small letters is its own candidate, and stays it with a port, a dot at
/// its end or white space around it.
pub proof fn law_plain_name_is_a_candidate(name: Seq<char>, port: Seq<char>)
    requires
        name.len() > 0,
        name != "localhost"@,
        !ip_literal::ip_text(name),
        text::ascii_lower(name) == name,
        !name.contains('['),
        !name.contains(':'),
        name.last() != '.',
        !port.contains(':'),
        port.len() > 0,
        forall|i: int| 0 <= i < name.len() ==> !text::is_white_space(#[trigger] name[i]),
        forall|i: int| 0 <= i < port.len() ==> !text::is_white_space(#[trigger] port[i]),
    ensures
        domain_candidate(name) == Some(name),
        domain_candidate(name + "."@) == Some(name),
        domain_candidate(name + ":"@ + port) == Some(name),
        domain_candidate(" "@ + name + "\n"@) == Some(name),
{
    reveal_strlit(".");
    reveal_strlit(":");
    reveal_strlit(" ");
    reveal_strlit("\n");
    reveal_strlit("[");
    assert("."@.len() == 1);
    assert(":"@.len() == 1);
    assert(" "@.len() == 1);
    assert("\n"@.len() == 1);
    assert("["@.len() == 1);
    assert("."@[0] != ":"@[0]);
    assert("."@[0] != " "@[0]);
    assert("."@[0] != "\n"@[0]);
    assert("."@[0] != "["@[0]);
    assert(":"@[0] != " "@[0]);
    assert(":"@[0] != "\n"@[0]);
    assert(":"@[0] != "["@[0]);
    assert(" "@[0] != "\n"@[0]);
    assert(" "@[0] != "["@[0]);
    assert("\n"@[0] != "["@[0]);
    let w = text::white();
    let dots = text::just('.');
    assert(!text::starts_with(name, "["@)) by {
        if text::starts_with(name, "["@) {
            assert(name.subrange(0, 1)[0] == '[');
            assert(name.contains(name[0]));
        }
    }
    law_port_makes_no_difference(name, port);
    assert(name.subrange(0, name.len() as int) =~= name);
    text::lemma_trim_end_while(name, dots, name.len() as int);
    lemma_untouched(name);
    let dotted = name + "."@;
    assert(dotted[0] == name[0]);
    lemma_untouched(dotted);
    assert(!dotted.contains(':')) by {
        if dotted.contains(':') {
            let k = choose|k: int| 0 <= k < dotted.len() && dotted[k] == ':';
            assert(name[k] == ':');
        }
    }
    assert(!text::starts_with(dotted, "["@)) by {
        if text::starts_with(dotted, "["@) {
            assert(dotted.subrange(0, 1)[0] == '[');
            assert(name.contains(name[0]));
        }
    }
    law_port_makes_no_difference(dotted, port);
    assert(dotted[name.len() - 1] == name.last());
    text::lemma_trim_end_while(dotted, dots, name.len() as int);
    assert(dotted.subrange(0, name.len() as int) =~= name);
    let with_port = name + ":"@ + port;
    assert(with_port[0] == name[0]);
    assert(with_port.last() == port.last());
    assert(port.last() == port[port.len() - 1]);
    lemma_untouched(with_port);
    let loose = " "@ + name + "\n"@;
    assert(loose[1] == name[0]);
    text::lemma_trim_start_while(loose, w, 1);
    let t = loose.subrange(1, loose.len() as int);
    assert(t =~= name + "\n"@);
    assert(t[name.len() - 1] == name.last());
    assert(name.last() == name[name.len() - 1]);
    text::lemma_trim_end_while(t, w, name.len() as int);
    assert(t.subrange(0, name.len() as int) =~= name);
}

proof fn lemma_untouched(s: Seq<char>)
    requires
        s.len() > 0,
        !text::is_white_space(s[0]),
        !text::is_white_space(s[s.len() - 1]),
    ensures
        text::trimmed(s) == s,
{
    let w = text::white();
    text::lemma_trim_start_while(s, w, 0);
    assert(s.subrange(0, s.len() as int) =~= s);
    text::lemma_trim_end_while(s, w, s.len() as int);
}

} // verus!

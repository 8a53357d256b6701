//! The cookie jar: cookie names with their values, filled from `Set-Cookie`
//! headers and written out as one `Cookie` header.

use vstd::prelude::*;
use crate::error::AuthError;
use crate::pairs::{
    distinct_names, find_last, has_name, lemma_map_last_wins, lemma_map_names,
    lemma_upsert_inserts, lookup, pairs_map, pairs_view, set_pair, upsert, Pair,
};

verus! {

/// The name and the value that `cookie::Cookie::parse` reads in a `Set-Cookie`
/// header, or `None` where it rejects the header.
pub uninterp spec fn cookie_parsed(header: Seq<char>) -> Option<(Seq<char>, Seq<char>)>;

/// Whether a cookie can be told apart from its neighbours in a `Cookie`
/// header: no `;` in it, and no `=` in its name.
pub open spec fn separable(pair: Pair) -> bool {
    &&& !pair.0.contains('=')
    &&& !pair.0.contains(';')
    &&& !pair.1.contains(';')
}

/// Whether every pair of `pairs` is separable.
pub open spec fn all_separable(pairs: Seq<Pair>) -> bool {
    forall|i: int| 0 <= i < pairs.len() ==> separable(#[trigger] pairs[i])
}

/// What one cookie adds to a `Cookie` header.
pub open spec fn render_pair(pair: Pair) -> Seq<char> {
    pair.0 + seq!['='] + pair.1 + seq![';', ' ']
}

/// The `Cookie` header of `pairs`: `name=value; ` for each pair, in order.
pub open spec fn render(pairs: Seq<Pair>) -> Seq<char>
    decreases pairs.len(),
{
    if pairs.len() == 0 {
        Seq::empty()
    } else {
        render_pair(pairs[0]) + render(pairs.drop_first())
    }
}

/// Where `c` first occurs in `text`, or the length of `text` where it does
/// not occur.
pub open spec fn first_index(text: Seq<char>, c: char) -> nat
    decreases text.len(),
{
    if text.len() == 0 {
        0
    } else if text[0] == c {
        0
    } else {
        1 + first_index(text.drop_first(), c)
    }
}

/// A piece `name=value` of a `Cookie` header, cut at its first `=`.
pub open spec fn split_pair(piece: Seq<char>) -> Pair {
    let cut = first_index(piece, '=') as int;
    if cut < piece.len() {
        (piece.subrange(0, cut), piece.subrange(cut + 1, piece.len() as int))
    } else {
        (piece, Seq::empty())
    }
}

/// The pairs that a `Cookie` header holds: each piece up to a `;`, which one
/// more character follows.  What follows the last `;` is no pair.
pub open spec fn header_pairs(header: Seq<char>) -> Seq<Pair>
    decreases header.len(),
{
    let end = first_index(header, ';') as int;
    if end >= header.len() {
        Seq::empty()
    } else {
        let rest = if end + 2 <= header.len() {
            header.subrange(end + 2, header.len() as int)
        } else {
            Seq::empty()
        };
        seq![split_pair(header.subrange(0, end))] + header_pairs(rest)
    }
}

/// What a list of optional strings holds, each string taken as its text.
pub open spec fn texts_view(items: Seq<Option<String>>) -> Seq<Option<Seq<char>>> {
    items.map_values(
        |item: Option<String>|
            match item {
                Some(text) => Some(text@),
                None => None,
            },
    )
}

/// The jar that the `Set-Cookie` headers `headers` leave of `pairs`, and the
/// failure that ended the merge, if one did.  Headers are taken in order.  The
/// first that is unreadable (`None`) or no cookie ends the merge; what came
/// before it stays in the jar.
pub open spec fn merged(pairs: Seq<Pair>, headers: Seq<Option<Seq<char>>>) -> (
    Seq<Pair>,
    Option<AuthError>,
)
    decreases headers.len(),
{
    if headers.len() == 0 {
        (pairs, None)
    } else {
        match headers[0] {
            None => (pairs, Some(AuthError::UnreadableSetCookie)),
            Some(header) => match cookie_parsed(header) {
                None => (pairs, Some(AuthError::MalformedCookie)),
                Some((name, value)) => merged(upsert(pairs, name, value), headers.drop_first()),
            },
        }
    }
}

/// In `head + [c] + tail`, where `head` is free of `c`, the first `c` is the
/// one in the middle.
proof fn lemma_first_index_after(head: Seq<char>, c: char, tail: Seq<char>)
    requires
        !head.contains(c),
    ensures
        first_index(head + seq![c] + tail, c) == head.len(),
    decreases head.len(),
{
    let text = head + seq![c] + tail;
    if head.len() == 0 {
        assert(text[0] == c);
    } else {
        assert(text[0] == head[0]);
        assert(head.contains(head[0]));
        let shorter = head.drop_first();
        assert(!shorter.contains(c)) by {
            if shorter.contains(c) {
                let i = choose|i: int| 0 <= i < shorter.len() && shorter[i] == c;
                assert(head[i + 1] == c);
            }
        }
        assert(text.drop_first() =~= shorter + seq![c] + tail);
        lemma_first_index_after(shorter, c, tail);
    }
}

/// Appending a pair appends what it renders to.
pub proof fn lemma_render_push(pairs: Seq<Pair>, pair: Pair)
    ensures
        render(pairs.push(pair)) == render(pairs) + render_pair(pair),
    decreases pairs.len(),
{
    let longer = pairs.push(pair);
    if pairs.len() == 0 {
        assert(longer.drop_first() =~= Seq::<Pair>::empty());
        assert(render(longer.drop_first()) =~= Seq::<char>::empty());
        assert(render(longer) =~= render_pair(pair));
        assert(render(pairs) + render_pair(pair) =~= render_pair(pair));
    } else {
        assert(longer[0] == pairs[0]);
        assert(longer.drop_first() =~= pairs.drop_first().push(pair));
        lemma_render_push(pairs.drop_first(), pair);
        assert(render(longer) =~= render(pairs) + render_pair(pair));
    }
}

/// Reading a rendered header gives back the pairs it was rendered from, in
/// their order, where every pair is separable.
pub proof fn lemma_header_round_trip(pairs: Seq<Pair>)
    requires
        all_separable(pairs),
    ensures
        header_pairs(render(pairs)) == pairs,
    decreases pairs.len(),
{
    if pairs.len() == 0 {
        assert(header_pairs(render(pairs)) =~= pairs);
    } else {
        let pair = pairs[0];
        let rest = pairs.drop_first();
        let header = render(pairs);
        let piece = pair.0 + seq!['='] + pair.1;
        let tail = seq![' '] + render(rest);
        assert(separable(pair));
        assert(all_separable(rest)) by {
            assert forall|i: int| 0 <= i < rest.len() implies separable(#[trigger] rest[i]) by {
                assert(rest[i] == pairs[i + 1]);
            }
        }
        assert(header =~= piece + seq![';'] + tail);
        assert(!piece.contains(';')) by {
            if piece.contains(';') {
                let i = choose|i: int| 0 <= i < piece.len() && piece[i] == ';';
                if i < pair.0.len() {
                    assert(pair.0[i] == ';');
                } else if i > pair.0.len() {
                    assert(pair.1[i - pair.0.len() - 1] == ';');
                }
            }
        }
        lemma_first_index_after(piece, ';', tail);
        let end = first_index(header, ';') as int;
        assert(end == piece.len());
        assert(header.subrange(0, end) =~= piece);
        assert(header.subrange(end + 2, header.len() as int) =~= render(rest));
        lemma_first_index_after(pair.0, '=', pair.1);
        assert(piece.subrange(0, pair.0.len() as int) =~= pair.0);
        assert(piece.subrange(pair.0.len() as int + 1, piece.len() as int) =~= pair.1);
        assert(split_pair(piece) == pair);
        lemma_header_round_trip(rest);
        assert(seq![pair] + rest =~= pairs);
    }
}

/// Setting a separable pair keeps a list separable.
proof fn lemma_upsert_separable(pairs: Seq<Pair>, name: Seq<char>, value: Seq<char>)
    requires
        all_separable(pairs),
        separable((name, value)),
    ensures
        all_separable(upsert(pairs, name, value)),
    decreases pairs.len(),
{
    if pairs.len() > 0 && pairs[0].0 != name {
        let rest = pairs.drop_first();
        assert forall|i: int| 0 <= i < rest.len() implies separable(#[trigger] rest[i]) by {
            assert(rest[i] == pairs[i + 1]);
        }
        lemma_upsert_separable(rest, name, value);
        let changed = upsert(pairs, name, value);
        assert forall|i: int| 0 <= i < changed.len() implies separable(#[trigger] changed[i]) by {
            if i == 0 {
                assert(changed[0] == pairs[0]);
            } else {
                assert(changed[i] == upsert(rest, name, value)[i - 1]);
            }
        }
    }
}

/// Calls `cookie::Cookie::parse` on a `Set-Cookie` header and hands out the
/// cookie's name and value (`Cookie::name_value`).  The parser cuts the header
/// at its first `;`, and what stands before at the first `=`: so the name holds
/// neither, and the value holds no `;`.  What else it does to them (it trims
/// both) is left to the name `cookie_parsed`.
#[verifier::external_body]
fn parse_cookie(header: &str) -> (parsed: Option<(String, String)>)
    ensures
        parsed is Some == cookie_parsed(header@) is Some,
        parsed matches Some(pair) ==> cookie_parsed(header@) == Some((pair.0@, pair.1@)),
        parsed matches Some(pair) ==> separable((pair.0@, pair.1@)),
{
    let cookie = cookie::Cookie::parse(header).ok()?;
    let (name, value) = cookie.name_value();
    Some((name.to_string(), value.to_string()))
}

/// Cookie names with their values.  No name occurs twice; a name keeps the
/// place at which it came first.
#[derive(Clone, Debug)]
pub struct CookieJar {
    entries: Vec<(String, String)>,
}

impl View for CookieJar {
    type V = Map<Seq<char>, Seq<char>>;

    /// The jar as a map from cookie name to value.
    open spec fn view(&self) -> Map<Seq<char>, Seq<char>> {
        pairs_map(self.pairs())
    }
}

impl CookieJar {
    /// The cookies in the order in which the jar writes them out.
    pub closed spec fn pairs(&self) -> Seq<Pair> {
        pairs_view(self.entries@)
    }

    /// The invariant of the jar: no name occurs twice.
    pub open spec fn wf(&self) -> bool {
        distinct_names(self.pairs())
    }

    /// Whether every cookie of the jar is separable.
    pub open spec fn is_separable(&self) -> bool {
        all_separable(self.pairs())
    }

    /// An empty jar.
    pub fn new() -> (jar: CookieJar)
        ensures
            jar.pairs() == Seq::<Pair>::empty(),
            jar@ == Map::<Seq<char>, Seq<char>>::empty(),
            jar.wf(),
            jar.is_separable(),
    {
        let jar = CookieJar { entries: Vec::new() };
        assert(jar.pairs() =~= Seq::<Pair>::empty());
        jar
    }

    /// The number of cookies.
    pub fn len(&self) -> (n: usize)
        ensures
            n == self.pairs().len(),
    {
        self.entries.len()
    }

    /// The value of the cookie `name`.
    pub fn get(&self, name: &str) -> (value: Option<String>)
        ensures
            value is Some == self@.contains_key(name@),
            value matches Some(text) ==> text@ == self@[name@],
    {
        lookup(&self.entries, name)
    }

    /// Sets the cookie `name` to `value`: last write wins.
    pub fn insert(&mut self, name: String, value: String)
        requires
            old(self).wf(),
        ensures
            final(self).wf(),
            final(self).pairs() == upsert(old(self).pairs(), name@, value@),
            final(self)@ == old(self)@.insert(name@, value@),
            old(self).is_separable() && separable((name@, value@)) ==> final(self).is_separable(),
    {
        proof {
            if all_separable(self.pairs()) && separable((name@, value@)) {
                lemma_upsert_separable(self.pairs(), name@, value@);
            }
        }
        set_pair(&mut self.entries, name, value);
    }

    /// Reads one `Set-Cookie` header and sets the cookie it assigns.  A header
    /// that is no cookie assignment leaves the jar as it is.
    pub fn add_cookie(&mut self, header: &str) -> (outcome: Result<(), AuthError>)
        requires
            old(self).wf(),
        ensures
            final(self).wf(),
            old(self).is_separable() ==> final(self).is_separable(),
            match cookie_parsed(header@) {
                Some((name, value)) => {
                    &&& outcome is Ok
                    &&& final(self).pairs() == upsert(old(self).pairs(), name, value)
                    &&& final(self)@ == old(self)@.insert(name, value)
                },
                None => {
                    &&& outcome == Err::<(), AuthError>(AuthError::MalformedCookie)
                    &&& final(self).pairs() == old(self).pairs()
                },
            },
    {
        match parse_cookie(header) {
            Some((name, value)) => {
                self.insert(name, value);
                Ok(())
            },
            None => Err(AuthError::MalformedCookie),
        }
    }

    /// Folds the `Set-Cookie` headers of one response into the jar, in their
    /// order.  A header that is `None` could not be read as text.
    pub fn merge(&mut self, headers: &Vec<Option<String>>) -> (outcome: Result<(), AuthError>)
        requires
            old(self).wf(),
        ensures
            final(self).wf(),
            old(self).is_separable() ==> final(self).is_separable(),
            final(self).pairs() == merged(old(self).pairs(), texts_view(headers@)).0,
            match merged(old(self).pairs(), texts_view(headers@)).1 {
                Some(error) => outcome == Err::<(), AuthError>(error),
                None => outcome is Ok,
            },
    {
        let ghost before = self.pairs();
        let ghost texts = texts_view(headers@);
        let mut i: usize = 0;
        assert(texts.skip(0) =~= texts);
        while i < headers.len()
            invariant
                i <= headers.len(),
                texts == texts_view(headers@),
                before == old(self).pairs(),
                self.wf(),
                old(self).is_separable() ==> self.is_separable(),
                merged(before, texts) == merged(self.pairs(), texts.skip(i as int)),
            decreases headers.len() - i,
        {
            let ghost rest = texts.skip(i as int);
            assert(rest[0] == texts[i as int]);
            assert(rest.drop_first() =~= texts.skip(i + 1));
            match &headers[i] {
                None => {
                    return Err(AuthError::UnreadableSetCookie);
                },
                Some(header) => {
                    assert(texts[i as int] == Some(header@));
                    match self.add_cookie(header.as_str()) {
                        Err(error) => {
                            return Err(error);
                        },
                        Ok(()) => {},
                    }
                },
            }
            i += 1;
        }
        Ok(())
    }

    /// Forgets every cookie but `name`.
    pub fn retain_only(&mut self, name: &str)
        ensures
            final(self).wf(),
            old(self).is_separable() ==> final(self).is_separable(),
            final(self).pairs() == if old(self)@.contains_key(name@) {
                seq![(name@, old(self)@[name@])]
            } else {
                Seq::<Pair>::empty()
            },
            final(self)@ == old(self)@.restrict(set![name@]),
    {
        let ghost before = self.pairs();
        proof {
            lemma_map_names(before, name@);
        }
        match find_last(&self.entries, name) {
            Some(at) => {
                let kept = (self.entries[at].0.clone(), self.entries[at].1.clone());
                proof {
                    assert(before[at as int] == (kept.0@, kept.1@));
                    assert forall|j: int| at < j < before.len() implies (#[trigger] before[j]).0
                        != before[at as int].0 by {
                        assert(before[j].0 == self.entries[j].0@);
                    }
                    lemma_map_last_wins(before, at as int);
                }
                let mut entries: Vec<(String, String)> = Vec::new();
                entries.push(kept);
                self.entries = entries;
                assert(self.pairs() =~= seq![before[at as int]]);
                assert(self.pairs().drop_last() =~= Seq::<Pair>::empty());
                assert(pairs_map(self.pairs().drop_last()) =~= Map::empty());
                assert(self@ =~= Map::<Seq<char>, Seq<char>>::empty().insert(
                    name@,
                    pairs_map(before)[name@],
                ));
                assert(self@ =~= pairs_map(before).restrict(set![name@]));
            },
            None => {
                proof {
                    assert(!has_name(before, name@)) by {
                        if has_name(before, name@) {
                            let i = choose|i: int|
                                0 <= i < before.len() && (#[trigger] before[i]).0 == name@;
                            assert(self.entries[i].0@ == name@);
                        }
                    }
                }
                self.entries = Vec::new();
                assert(self.pairs() =~= Seq::<Pair>::empty());
                assert(self@ =~= pairs_map(before).restrict(set![name@]));
            },
        }
    }

    /// The value of a `Cookie` request header that presents every cookie of the
    /// jar: `name=value; ` for each, in the order of the jar.
    pub fn header_value(&self) -> (header: String)
        ensures
            header@ == render(self.pairs()),
    {
        let ghost pairs = self.pairs();
        let mut header = String::new();
        let mut i: usize = 0;
        assert(pairs.take(0) =~= Seq::<Pair>::empty());
        while i < self.entries.len()
            invariant
                i <= self.entries.len(),
                pairs == self.pairs(),
                header@ == render(pairs.take(i as int)),
            decreases self.entries.len() - i,
        {
            proof {
                reveal_strlit("=");
                reveal_strlit("; ");
                lemma_render_push(pairs.take(i as int), pairs[i as int]);
                assert(pairs.take(i as int).push(pairs[i as int]) =~= pairs.take(i + 1));
            }
            let ghost so_far = header@;
            header.append(self.entries[i].0.as_str());
            header.append("=");
            header.append(self.entries[i].1.as_str());
            header.append("; ");
            assert(header@ =~= so_far + render_pair(pairs[i as int]));
            i += 1;
        }
        assert(pairs.take(pairs.len() as int) =~= pairs);
        header
    }

    /// The cookies as a list of names with their values, in the order of the
    /// jar.
    pub fn to_vec(&self) -> (entries: Vec<(String, String)>)
        ensures
            pairs_view(entries@) == self.pairs(),
    {
        let mut entries: Vec<(String, String)> = Vec::new();
        let mut i: usize = 0;
        assert(pairs_view(entries@) =~= self.pairs().take(0));
        while i < self.entries.len()
            invariant
                i <= self.entries.len(),
                entries.len() == i,
                pairs_view(entries@) == self.pairs().take(i as int),
            decreases self.entries.len() - i,
        {
            let ghost so_far = entries@;
            entries.push((self.entries[i].0.clone(), self.entries[i].1.clone()));
            assert forall|j: int| 0 <= j < entries.len() implies pairs_view(entries@)[j]
                == self.pairs().take(i + 1)[j] by {
                if j < i {
                    assert(pairs_view(so_far)[j] == self.pairs().take(i as int)[j]);
                }
            }
            assert(pairs_view(entries@) =~= self.pairs().take(i + 1));
            i += 1;
        }
        assert(self.pairs().take(self.pairs().len() as int) =~= self.pairs());
        entries
    }
}

/// The map that the `Set-Cookie` headers `headers` leave of `jar`: each cookie
/// inserted in turn, up to the first header that is unreadable or no cookie.
pub open spec fn inserted_all(
    jar: Map<Seq<char>, Seq<char>>,
    headers: Seq<Option<Seq<char>>>,
) -> Map<Seq<char>, Seq<char>>
    decreases headers.len(),
{
    if headers.len() == 0 {
        jar
    } else {
        match headers[0] {
            None => jar,
            Some(header) => match cookie_parsed(header) {
                None => jar,
                Some((name, value)) => inserted_all(jar.insert(name, value), headers.drop_first()),
            },
        }
    }
}

/// Last write wins: merging headers into a jar inserts their cookies into the
/// map of the jar one after the other, and repeats no name.
pub proof fn lemma_merge_inserts(pairs: Seq<Pair>, headers: Seq<Option<Seq<char>>>)
    requires
        distinct_names(pairs),
    ensures
        distinct_names(merged(pairs, headers).0),
        pairs_map(merged(pairs, headers).0) == inserted_all(pairs_map(pairs), headers),
    decreases headers.len(),
{
    if headers.len() > 0 {
        if let Some(header) = headers[0] {
            if let Some((name, value)) = cookie_parsed(header) {
                lemma_upsert_inserts(pairs, name, value);
                lemma_merge_inserts(upsert(pairs, name, value), headers.drop_first());
            }
        }
    }
}

/// The jar's header reads back as the jar: the same cookies in the same order,
/// and so the same map from name to value.
pub proof fn lemma_jar_round_trip(jar: CookieJar)
    requires
        jar.is_separable(),
    ensures
        header_pairs(render(jar.pairs())) == jar.pairs(),
        pairs_map(header_pairs(render(jar.pairs()))) == jar@,
{
    lemma_header_round_trip(jar.pairs());
}

} // verus!

//! A plugin that offers the programs of the Nix package collection.
//!
//! The plugin ranks programs against a query through a `Ranker`, by default
//! a full-text index over their names and descriptions, and turns the ranked
//! programs into matches. It starts no process itself: activating a match
//! queues the command line to run, for the embedding program to spawn.
use vstd::prelude::*;
use probly_search::score::zero_to_one;
use probly_search::{FieldAccessor, Index};
use std::borrow::Cow;
use vstd::string::{StrSliceExecFns, StringExecFns};
use crate::action::{text_eq, Action, ActionInfo};
use crate::dispatch::Plugin;
use crate::model::{Config, Match, MatchIcon, MatchType};

verus! {

/// The one action of the plugin: run the program.
#[derive(Debug, Clone, Copy, PartialEq, Eq, Hash, Structural)]
pub enum ProgramAction {
    Run,
}

impl Action for ProgramAction {
    open spec fn all_values() -> Seq<Self> {
        seq![ProgramAction::Run]
    }

    open spec fn id_of(&self) -> Seq<char> {
        "run"@
    }

    open spec fn id_lookup(id: Seq<char>) -> Option<Self> {
        if id == "run"@ {
            Some(ProgramAction::Run)
        } else {
            None
        }
    }

    open spec fn title_of(&self) -> Seq<char> {
        "Run Nix program"@
    }

    open spec fn icon_of(&self) -> Seq<char> {
        "system-run-symbolic"@
    }

    proof fn law_all_complete(a: Self) {
        assert(Self::all_values()[0] == a);
    }

    proof fn law_id_not_empty(a: Self) {
        reveal_strlit("run");
    }

    proof fn law_lookup_inverse(a: Self, id: Seq<char>) {
    }

    fn all() -> (v: Vec<Self>) {
        let mut v: Vec<ProgramAction> = Vec::new();
        v.push(ProgramAction::Run);
        assert(v@ =~= Self::all_values());
        v
    }

    fn from_id(s: &str) -> (r: Option<Self>) {
        if text_eq(s, "run") {
            Some(ProgramAction::Run)
        } else {
            None
        }
    }

    fn to_id(&self) -> (s: String) {
        "run".to_owned()
    }

    fn info(&self) -> (i: ActionInfo) {
        ActionInfo { title: "Run Nix program".to_owned(), icon: "system-run-symbolic".to_owned() }
    }
}

/// One program of the collection.
#[derive(Debug, Clone, PartialEq, Eq)]
pub struct Program {
    /// The attribute name by which the program is run.
    pub id: String,
    pub description: String,
    pub pname: String,
    pub version: String,
}

/// The longest term, in characters, that the plugin stores in its index.
pub const MAX_TERM: usize = 4096;

impl Program {
    /// The texts by which the program is found: its attribute name, its
    /// description and its package name, in that order.
    pub fn indexable_fields(&self) -> (r: Vec<&str>)
        ensures
            r@.len() == 3,
            r@[0]@ == self.id@,
            r@[1]@ == self.description@,
            r@[2]@ == self.pname@,
    {
        let mut r: Vec<&str> = Vec::new();
        r.push(self.id.as_str());
        r.push(self.description.as_str());
        r.push(self.pname.as_str());
        r
    }
}

/// The position of the first `c` in `s`, or the length of `s` where it holds
/// none.
pub open spec fn first_of(s: Seq<char>, c: char) -> int
    decreases s.len(),
{
    if s.len() == 0 || s[0] == c {
        0
    } else {
        1 + first_of(s.skip(1), c)
    }
}

/// The pieces of `s` between its occurrences of `c`: one more than there are
/// occurrences, empty pieces included.
pub open spec fn split_on(s: Seq<char>, c: char) -> Seq<Seq<char>>
    decreases s.len(),
{
    let i = first_of(s, c);
    if 0 <= i < s.len() {
        seq![s.take(i)] + split_on(s.skip(i + 1), c)
    } else {
        seq![s]
    }
}

/// `first_of` is the position before which no `c` stands and at which one
/// does, or the text ends.
pub proof fn lemma_first_of(s: Seq<char>, c: char, k: int)
    requires
        0 <= k <= s.len(),
        forall|j: int| 0 <= j < k ==> s[j] != c,
        k == s.len() || s[k] == c,
    ensures
        first_of(s, c) == k,
    decreases k,
{
    if k > 0 {
        lemma_first_of(s.skip(1), c, k - 1);
    }
}

/// How often `c` stands in `s`.
pub open spec fn count_of(s: Seq<char>, c: char) -> nat
    decreases s.len(),
{
    if s.len() == 0 {
        0
    } else if s[0] == c {
        1 + count_of(s.skip(1), c)
    } else {
        count_of(s.skip(1), c)
    }
}

/// The pieces of `t` in a row, with one `c` between each two.
pub open spec fn join(t: Seq<Seq<char>>, c: char) -> Seq<char>
    decreases t.len(),
{
    if t.len() == 0 {
        Seq::empty()
    } else if t.len() == 1 {
        t[0]
    } else {
        t[0] + seq![c] + join(t.skip(1), c)
    }
}

/// `first_of` lies within the text, no `c` stands before it, and where it
/// lies inside the text a `c` stands at it.
pub proof fn lemma_first_of_bounds(s: Seq<char>, c: char)
    ensures
        0 <= first_of(s, c) <= s.len(),
        forall|j: int| 0 <= j < first_of(s, c) ==> s[j] != c,
        first_of(s, c) < s.len() ==> s[first_of(s, c)] == c,
    decreases s.len(),
{
    if s.len() == 0 || s[0] == c {
    } else {
        lemma_first_of_bounds(s.skip(1), c);
        assert forall|j: int| 0 <= j < first_of(s, c) implies s[j] != c by {
            if j > 0 {
                assert(s[j] == s.skip(1)[j - 1]);
            }
        }
    }
}

/// A stretch without `c` at the start of a text adds nothing to the count.
proof fn lemma_count_skip(s: Seq<char>, c: char, k: int)
    requires
        0 <= k <= s.len(),
        forall|j: int| 0 <= j < k ==> s[j] != c,
    ensures
        count_of(s, c) == count_of(s.skip(k), c),
    decreases k,
{
    if k == 0 {
        assert(s.skip(0) =~= s);
    } else {
        assert forall|j: int| 0 <= j < k - 1 implies s.skip(1)[j] != c by {
            assert(s.skip(1)[j] == s[j + 1]);
        }
        lemma_count_skip(s.skip(1), c, k - 1);
        assert(s.skip(1).skip(k - 1) =~= s.skip(k));
    }
}

/// Splitting a text on `c` gives one piece more than the text holds `c`,
/// no piece holds a `c`, and the pieces joined by `c` are the text again.
pub proof fn lemma_split_laws(s: Seq<char>, c: char)
    ensures
        split_on(s, c).len() == count_of(s, c) + 1,
        forall|i: int| 0 <= i < split_on(s, c).len() ==> !(#[trigger] split_on(s, c)[i]).contains(c),
        join(split_on(s, c), c) == s,
    decreases s.len(),
{
    lemma_first_of_bounds(s, c);
    let i = first_of(s, c);
    let t = split_on(s, c);
    lemma_count_skip(s, c, i);
    if 0 <= i < s.len() {
        let rest = s.skip(i + 1);
        let tail = split_on(rest, c);
        lemma_split_laws(rest, c);
        assert(t == seq![s.take(i)] + tail);
        assert(s.skip(i)[0] == c);
        assert(s.skip(i).skip(1) =~= rest);
        assert forall|k: int| 0 <= k < t.len() implies !(#[trigger] t[k]).contains(c) by {
            if k == 0 {
                assert(t[0] == s.take(i));
            } else {
                assert(t[k] == tail[k - 1]);
            }
        }
        assert(t.skip(1) =~= tail);
        assert(s.take(i) + seq![c] + rest =~= s);
    } else {
        assert(t == seq![s]);
        assert(s.skip(i).len() == 0);
    }
}

/// The first position at or after `from` where `c` stands in `s`, or the
/// length of `s`.
fn find_char(s: &str, len: usize, from: usize, c: char) -> (r: usize)
    requires
        len == s@.len(),
        from <= len,
    ensures
        from <= r <= len,
        r - from == first_of(s@.skip(from as int), c),
{
    let mut i: usize = from;
    while i < len && s.get_char(i) != c
        invariant
            from <= i <= len,
            len == s@.len(),
            forall|j: int| from <= j < i ==> s@[j] != c,
        decreases len - i,
    {
        i = i + 1;
    }
    proof {
        lemma_first_of(s@.skip(from as int), c, i - from);
    }
    i
}

/// The contents of a sequence of terms.
pub open spec fn terms(v: Seq<Cow<'_, str>>) -> Seq<Seq<char>> {
    Seq::new(v.len(), |i: int| v[i]@)
}

/// Splits a text into the terms between its spaces, as the index does:
/// neighbouring spaces give an empty term.
pub fn tokenizer(s: &str) -> (tokens: Vec<Cow<'_, str>>)
    ensures
        terms(tokens@) == split_on(s@, ' '),
{
    let n = s.unicode_len();
    let mut tokens: Vec<Cow<'_, str>> = Vec::new();
    let mut start: usize = 0;
    let mut done = false;
    assert(s@.skip(0) =~= s@);
    assert(terms(tokens@) + split_on(s@, ' ') =~= split_on(s@, ' '));
    while !done
        invariant
            start <= n,
            n == s@.len(),
            !done ==> split_on(s@, ' ') == terms(tokens@) + split_on(
                s@.skip(start as int),
                ' ',
            ),
            done ==> terms(tokens@) == split_on(s@, ' '),
        decreases (n - start) + (if done { 0int } else { 1int }),
    {
        let end = find_char(s, n, start, ' ');
        let ghost rest = s@.skip(start as int);
        let ghost before = terms(tokens@);
        tokens.push(Cow::Borrowed(s.substring_char(start, end)));
        assert(terms(tokens@) =~= before.push(s@.subrange(start as int, end as int)));
        assert(rest.take(end - start) =~= s@.subrange(start as int, end as int));
        if end >= n {
            assert(rest =~= s@.subrange(start as int, end as int));
            assert(before + seq![rest] =~= before.push(rest));
            done = true;
        } else {
            assert(rest.skip(end - start + 1) =~= s@.skip(end + 1));
            assert(before + (seq![rest.take(end - start)] + split_on(s@.skip(end + 1), ' '))
                =~= before.push(rest.take(end - start)) + split_on(s@.skip(end + 1), ' '));
            start = end + 1;
        }
    }
    tokens
}

/// The terms among `t` that are short enough to be stored in the index, in
/// order: those of at most `MAX_TERM` characters.
pub open spec fn short_terms(t: Seq<Seq<char>>) -> Seq<Seq<char>>
    decreases t.len(),
{
    if t.len() == 0 {
        Seq::empty()
    } else if t[0].len() <= MAX_TERM {
        seq![t[0]] + short_terms(t.drop_first())
    } else {
        short_terms(t.drop_first())
    }
}

/// Splits a text of a program into the terms to store: the terms between
/// its spaces, as `tokenizer` gives them, without those longer than
/// `MAX_TERM` characters.
pub fn index_terms(s: &str) -> (tokens: Vec<Cow<'_, str>>)
    ensures
        terms(tokens@) == short_terms(split_on(s@, ' ')),
{
    let n = s.unicode_len();
    let mut tokens: Vec<Cow<'_, str>> = Vec::new();
    let mut start: usize = 0;
    let mut done = false;
    assert(s@.skip(0) =~= s@);
    assert(terms(tokens@) + short_terms(split_on(s@, ' ')) =~= short_terms(split_on(s@, ' ')));
    assert(short_terms(Seq::<Seq<char>>::empty()) =~= Seq::<Seq<char>>::empty());
    while !done
        invariant
            start <= n,
            n == s@.len(),
            short_terms(Seq::<Seq<char>>::empty()) == Seq::<Seq<char>>::empty(),
            !done ==> short_terms(split_on(s@, ' ')) == terms(tokens@) + short_terms(
                split_on(s@.skip(start as int), ' '),
            ),
            done ==> terms(tokens@) == short_terms(split_on(s@, ' ')),
        decreases (n - start) + (if done { 0int } else { 1int }),
    {
        let end = find_char(s, n, start, ' ');
        let ghost rest = s@.skip(start as int);
        let ghost piece = s@.subrange(start as int, end as int);
        let ghost before = terms(tokens@);
        let ghost tail = if end >= n {
            Seq::<Seq<char>>::empty()
        } else {
            split_on(s@.skip(end + 1), ' ')
        };
        assert(rest.take(end - start) =~= piece);
        assert(split_on(rest, ' ') == seq![piece] + tail) by {
            if end >= n {
                assert(rest =~= piece);
                assert(seq![piece] + tail =~= seq![rest]);
            } else {
                assert(rest.skip(end - start + 1) =~= s@.skip(end + 1));
            }
        }
        assert((seq![piece] + tail)[0] == piece);
        assert((seq![piece] + tail).drop_first() =~= tail);
        if end - start <= MAX_TERM {
            tokens.push(Cow::Borrowed(s.substring_char(start, end)));
            assert(terms(tokens@) =~= before.push(piece));
            assert(before + (seq![piece] + short_terms(tail)) =~= before.push(piece) + short_terms(tail));
        }
        assert(short_terms(split_on(s@, ' ')) == terms(tokens@) + short_terms(tail));
        if end >= n {
            assert(terms(tokens@) + short_terms(tail) =~= terms(tokens@));
            done = true;
        } else {
            start = end + 1;
        }
    }
    tokens
}

/// The attribute name inside a key of the package listing: what follows the
/// second dot of the key, if it has two.
pub open spec fn attribute_of(key: Seq<char>) -> Option<Seq<char>> {
    let a = first_of(key, '.');
    if 0 <= a < key.len() {
        let tail = key.skip(a + 1);
        let b = first_of(tail, '.');
        if 0 <= b < tail.len() {
            Some(tail.skip(b + 1))
        } else {
            None
        }
    } else {
        None
    }
}

/// The attribute name by which a program is run, from its key in the
/// package listing, such as `hello` from `legacyPackages.x86_64-linux.hello`.
/// A key with fewer than two dots has none.
pub fn attribute_name(key: &str) -> (r: Option<String>)
    ensures
        match attribute_of(key@) {
            Some(name) => r is Some && r->Some_0@ == name,
            None => r is None,
        },
{
    let n = key.unicode_len();
    let a = find_char(key, n, 0, '.');
    assert(key@.skip(0) =~= key@);
    if a >= n {
        return None;
    }
    let b = find_char(key, n, a + 1, '.');
    if b >= n {
        return None;
    }
    assert(key@.skip(a + 1).skip(b - (a + 1) + 1) =~= key@.subrange(b + 1, n as int));
    Some(key.substring_char(b + 1, n).to_owned())
}

/// One result of ranking a query: the position of a program and its score,
/// the bit pattern of a 64-bit IEEE 754 number.
#[derive(Debug, Clone, Copy, PartialEq, Eq, Structural)]
pub struct Hit {
    pub key: usize,
    pub score: u64,
}

/// Ranks the programs against a query, best first. Nothing is promised of the
/// ranking: the plugin checks each hit itself.
pub trait Ranker {
    fn rank(&self, query: &str) -> Vec<Hit>;
}

/// `probly_search::Index`, a full-text index. Nothing inside it is visible
/// here; `index_fields`, `index_keys`, `index_depth` and `index_answer` name
/// what the plugin needs to know of it.
#[verifier::external_type_specification]
#[verifier::external_body]
#[verifier::reject_recursive_types(T)]
pub struct ExIndex<T>(Index<T>);

/// The number of fields that a search index was made with.
pub uninterp spec fn index_fields(index: Index<usize>) -> nat;

/// The keys of the documents that a search index holds.
pub uninterp spec fn index_keys(index: Index<usize>) -> Set<usize>;

/// The length, in characters, of the longest term that a search index
/// stores.
pub uninterp spec fn index_depth(index: Index<usize>) -> nat;

/// What a search index answers to a query: the pairs of a document's key
/// and its score. It names the pairs alone, not the order in which a query
/// lists them.
pub uninterp spec fn index_answer(index: Index<usize>, query: Seq<char>) -> Set<(usize, u64)>;

/// Whether the hits are the pairs of an answer, each key once.
pub open spec fn is_answer(hits: Seq<Hit>, answer: Set<(usize, u64)>) -> bool {
    &&& forall|i: int, j: int| 0 <= i < j < hits.len() ==> hits[i].key != hits[j].key
    &&& forall|i: int| 0 <= i < hits.len() ==> answer.contains(((#[trigger] hits[i]).key, hits[i].score))
    &&& forall|k: usize, s: u64| #[trigger]
        answer.contains((k, s)) ==> exists|i: int| 0 <= i < hits.len() && #[trigger] hits[i] == (Hit {
            key: k,
            score: s,
        })
}

/// `probly_search::Index::new`: an index with the given number of fields,
/// which holds no document. It allocates a record for each field, so only
/// the one field that the plugin uses is asked for.
#[verifier::external_body]
fn index_new(fields: usize) -> (index: Index<usize>)
    requires
        fields == 1,
    ensures
        index_fields(index) == fields,
        index_keys(index) == Set::<usize>::empty(),
        index_depth(index) == 0,
{
    Index::new(fields)
}

/// `probly_search::Index::add_document`, on an index of one field, with the
/// indexable fields of the program as that field and `index_terms` to split
/// them: afterwards the index holds a document under `key` as well. It reads
/// one field accessor for each field of the index, so the index must have
/// been made with one field. The terms it stores are those that the
/// splitter returns, so none is longer than `MAX_TERM`.
#[verifier::external_body]
fn index_add(index: &mut Index<usize>, key: usize, program: &Program)
    requires
        index_fields(*old(index)) == 1,
    ensures
        index_fields(*final(index)) == index_fields(*old(index)),
        index_keys(*final(index)) == index_keys(*old(index)).insert(key),
        index_depth(*final(index)) <= MAX_TERM || index_depth(*final(index)) <= index_depth(*old(index)),
{
    let fields: FieldAccessor<Program> = Program::indexable_fields;
    index.add_document(&[fields], index_terms, key, program)
}

/// `probly_search::Index::query` with the scores of
/// `probly_search::score::zero_to_one`, `tokenizer` to split the query and no
/// field boosts: the documents that share a term with the query, best
/// first. Every hit carries the key of a document that the index holds, no
/// key comes twice, and the hits are the pairs of the index's answer to the
/// query. Nothing is said of the order, which for equal scores follows the
/// walk of a hash map. The query walks the stored terms, one call deep for
/// each character, so the index must hold no term longer than `MAX_TERM`.
#[verifier::external_body]
fn index_query(index: &Index<usize>, query: &str) -> (hits: Vec<Hit>)
    requires
        index_depth(*index) <= MAX_TERM,
    ensures
        forall|i: int| 0 <= i < hits@.len() ==> index_keys(*index).contains((#[trigger] hits@[i]).key),
        is_answer(hits@, index_answer(*index, query@)),
{
    let found = index.query(query, &mut zero_to_one::new(), tokenizer, &[]);
    found.into_iter().map(|r| Hit { key: r.key, score: r.score.to_bits() }).collect()
}

/// A full-text index over the programs of a plugin, keyed by their
/// positions.
pub struct ProgramIndex {
    index: Index<usize>,
}

impl ProgramIndex {
    /// The index has the one field that programs are added with, and holds
    /// no term too long to be walked.
    #[verifier::type_invariant]
    spec fn sound(self) -> bool {
        index_fields(self.index) == 1 && index_depth(self.index) <= MAX_TERM
    }

    /// The positions of the programs that the index holds.
    pub closed spec fn keys(&self) -> Set<usize> {
        index_keys(self.index)
    }

    /// What the index answers to a query: the pairs of a program's position
    /// and its score.
    pub closed spec fn answer(&self, query: Seq<char>) -> Set<(usize, u64)> {
        index_answer(self.index, query)
    }

    /// Indexes the programs: each under its position, nothing else. A term
    /// of more than `MAX_TERM` characters is not stored; the program that
    /// holds it is indexed by its other terms.
    pub fn build(programs: &Vec<Program>) -> (r: ProgramIndex)
        ensures
            forall|k: usize| r.keys().contains(k) <==> k < programs@.len(),
    {
        let mut index = index_new(1);
        let mut i: usize = 0;
        while i < programs.len()
            invariant
                i <= programs.len(),
                index_fields(index) == 1,
                index_depth(index) <= MAX_TERM,
                forall|k: usize| index_keys(index).contains(k) <==> k < i,
            decreases programs.len() - i,
        {
            index_add(&mut index, i, &programs[i]);
            i = i + 1;
        }
        ProgramIndex { index }
    }
}

impl Ranker for ProgramIndex {
    /// The hits are the index's answer to the query, in some order: every
    /// hit carries the position of an indexed program, and none comes twice.
    fn rank(&self, query: &str) -> (hits: Vec<Hit>)
        ensures
            forall|i: int| 0 <= i < hits@.len() ==> self.keys().contains((#[trigger] hits@[i]).key),
            is_answer(hits@, self.answer(query@)),
    {
        proof {
            use_type_invariant(self);
        }
        index_query(&self.index, query)
    }
}

/// Whether `m` is the match that stands for `program` with the given score.
pub open spec fn is_program_match(program: Program, score: u64, m: Match<ProgramAction>) -> bool {
    &&& m.id@ == program.id@
    &&& m.title@ == "Nix: "@ + program.id@
    &&& m.subtitle is Some && m.subtitle->Some_0@ == program.description@
    &&& m.icon matches MatchIcon::ByName(n) && n@ == "nix-snowflake"@
    &&& m.ty == MatchType::PossibleMatch
    &&& m.relevance == score
    &&& m.urls@.len() == 0
    &&& m.category is None
    &&& !m.multiline
    &&& m.actions@ == seq![ProgramAction::Run]
}

/// The match that stands for a program: a possible match named after its
/// attribute name, described by its description, that offers to run it.
pub fn program_match(program: &Program, score: u64) -> (m: Match<ProgramAction>)
    ensures
        is_program_match(*program, score, m),
{
    let title = "Nix: ".to_owned().concat(program.id.as_str());
    let m = Match::new(program.id.clone()).text(title).subtext(program.description.clone()).icon(
        "nix-snowflake".to_owned(),
    ).ty(MatchType::PossibleMatch).action(ProgramAction::Run).relevance(score);
    assert(m.actions@ =~= seq![ProgramAction::Run]);
    m
}

/// Whether every hit points at a program.
pub open spec fn hits_in_range(programs: Seq<Program>, hits: Seq<Hit>) -> bool {
    forall|i: int| 0 <= i < hits.len() ==> (#[trigger] hits[i]).key < programs.len()
}

/// How the matches for a ranking follow from it: one match for each hit, in
/// the order of the ranking, where every hit points at a program; else an
/// error.
pub open spec fn is_ranking(
    programs: Seq<Program>,
    hits: Seq<Hit>,
    result: Result<Vec<Match<ProgramAction>>, String>,
) -> bool {
    if hits_in_range(programs, hits) {
        &&& result is Ok
        &&& result->Ok_0@.len() == hits.len()
        &&& forall|i: int|
            0 <= i < hits.len() ==> is_program_match(
                programs[hits[i].key as int],
                hits[i].score,
                #[trigger] result->Ok_0@[i],
            )
    } else {
        result is Err && result->Err_0@ == "Unknown program"@
    }
}

/// Turns a ranking into matches.
pub fn ranked_matches(programs: &Vec<Program>, hits: &Vec<Hit>) -> (result: Result<
    Vec<Match<ProgramAction>>,
    String,
>)
    ensures
        is_ranking(programs@, hits@, result),
{
    let mut matches: Vec<Match<ProgramAction>> = Vec::new();
    let mut i: usize = 0;
    while i < hits.len()
        invariant
            i <= hits.len(),
            matches.len() == i,
            forall|j: int| 0 <= j < i ==> (#[trigger] hits@[j]).key < programs@.len(),
            forall|j: int|
                0 <= j < i ==> is_program_match(
                    programs@[hits@[j].key as int],
                    hits@[j].score,
                    #[trigger] matches@[j],
                ),
        decreases hits.len() - i,
    {
        let hit = hits[i];
        if hit.key >= programs.len() {
            return Err("Unknown program".to_owned());
        }
        matches.push(program_match(&programs[hit.key], hit.score));
        i = i + 1;
    }
    Ok(matches)
}

/// The command line that runs a program of the collection.
pub open spec fn launch_line(match_id: Seq<char>) -> Seq<Seq<char>> {
    seq!["run"@, "nixpkgs#"@ + match_id, "--extra-experimental-features"@, "nix-command"@]
}

/// The arguments to `nix` that run the program of a match.
pub fn launch_arguments(match_id: &str) -> (r: Vec<String>)
    ensures
        crate::wire::texts(r@) == launch_line(match_id@),
{
    let mut r: Vec<String> = Vec::new();
    r.push("run".to_owned());
    r.push("nixpkgs#".to_owned().concat(match_id));
    r.push("--extra-experimental-features".to_owned());
    r.push("nix-command".to_owned());
    assert(crate::wire::texts(r@) =~= launch_line(match_id@));
    r
}

/// The plugin: the programs it knows, the ranker it asks, and the command
/// lines that activations have queued.
pub struct ProgramRunner<K> {
    pub programs: Vec<Program>,
    pub ranker: K,
    /// Command lines waiting to be spawned, oldest first.
    pub launches: Vec<Vec<String>>,
}

impl<K: Ranker> ProgramRunner<K> {
    /// A plugin over the given programs, with nothing queued.
    pub fn new(programs: Vec<Program>, ranker: K) -> (r: ProgramRunner<K>)
        ensures
            r.programs == programs,
            r.ranker == ranker,
            r.launches@.len() == 0,
    {
        ProgramRunner { programs, ranker, launches: Vec::new() }
    }
}

impl ProgramRunner<ProgramIndex> {
    /// A plugin over the given programs that ranks them with a full-text
    /// index of its own, with nothing queued.
    pub fn indexed(programs: Vec<Program>) -> (r: ProgramRunner<ProgramIndex>)
        ensures
            r.programs == programs,
            r.launches@.len() == 0,
            forall|k: usize| r.ranker.keys().contains(k) <==> k < programs@.len(),
    {
        let ranker = ProgramIndex::build(&programs);
        ProgramRunner { programs, ranker, launches: Vec::new() }
    }
}

impl<K: Ranker> Plugin for ProgramRunner<K> {
    type Action = ProgramAction;

    type Err = String;

    /// The matches stand for a ranking that the plugin's ranker can give
    /// for the query; the plugin itself stays as it is.
    open spec fn matches_rel(
        pre: Self,
        query: Seq<char>,
        post: Self,
        result: Result<Vec<Match<ProgramAction>>, String>,
    ) -> bool {
        post == pre && exists|hits: Vec<Hit>, q: &str|
            q@ == query && #[trigger] call_ensures(K::rank, (&pre.ranker, q), hits) && is_ranking(
                pre.programs@,
                hits@,
                result,
            )
    }

    /// Running a program queues its command line; the default activation
    /// does nothing. Neither fails.
    open spec fn run_rel(
        pre: Self,
        match_id: Seq<char>,
        action: Option<ProgramAction>,
        post: Self,
        result: Result<(), String>,
    ) -> bool {
        &&& result is Ok
        &&& post.programs == pre.programs
        &&& post.ranker == pre.ranker
        &&& match action {
            Some(ProgramAction::Run) => {
                &&& post.launches@.len() == pre.launches@.len() + 1
                &&& post.launches@.take(pre.launches@.len() as int) == pre.launches@
                &&& crate::wire::texts(post.launches@.last()@) == launch_line(match_id)
            },
            None => post.launches == pre.launches,
        }
    }

    /// The plugin has no configuration.
    open spec fn config_rel(pre: Self, post: Self, result: Result<
        Option<Config<ProgramAction>>,
        String,
    >) -> bool {
        post == pre && result == Ok::<Option<Config<ProgramAction>>, String>(None)
    }

    /// The plugin has nothing to clean up.
    open spec fn teardown_rel(pre: Self, post: Self, result: Result<(), String>) -> bool {
        post == pre && result is Ok
    }

    fn matches(&mut self, query: String) -> (r: Result<Vec<Match<ProgramAction>>, String>) {
        let asked = query.as_str();
        let hits = self.ranker.rank(asked);
        let r = ranked_matches(&self.programs, &hits);
        assert(asked@ == query@ && call_ensures(K::rank, (&self.ranker, asked), hits) && is_ranking(
            self.programs@,
            hits@,
            r,
        ));
        r
    }

    fn run(&mut self, match_id: String, action: Option<ProgramAction>) -> (r: Result<(), String>) {
        match action {
            Some(ProgramAction::Run) => {
                let ghost before = self.launches@;
                self.launches.push(launch_arguments(match_id.as_str()));
                assert(self.launches@.take(before.len() as int) =~= before);
            },
            None => {},
        }
        Ok(())
    }

    fn config(&mut self) -> (r: Result<Option<Config<ProgramAction>>, String>) {
        Ok(None)
    }

    fn teardown(&mut self) -> (r: Result<(), String>) {
        Ok(())
    }
}

} // verus!

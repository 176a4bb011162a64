//! The container values that replies are made of, and the encoding of the
//! data model into them.
//!
//! A match is a positional record of six fields, the last of them a
//! string-keyed dictionary of variants that holds a key only for a field that
//! is set. A configuration is such a dictionary alone.
use vstd::prelude::*;
use crate::action::{action_as_arg, action_ids, action_records, Action, ActionRecord};
use crate::model::{
    Config, ImageData, Match, MatchFilter, MatchIcon, RemoteImage, RemoteImageView,
};

verus! {

/// A value inside a variant dictionary.
#[derive(Debug, Clone, PartialEq, Eq)]
pub enum WireValue {
    /// A string.
    Text(String),
    /// A boolean.
    Flag(bool),
    /// A signed 32-bit integer.
    Int32(i32),
    /// An array of strings.
    TextList(Vec<String>),
    /// An image record.
    Image(RemoteImage),
    /// An array of action records.
    ActionList(Vec<ActionRecord>),
}

/// What a `WireValue` holds.
pub enum WireValueView {
    Text(Seq<char>),
    Flag(bool),
    Int32(int),
    TextList(Seq<Seq<char>>),
    Image(RemoteImageView),
    ActionList(Seq<(Seq<char>, Seq<char>, Seq<char>)>),
}

/// The contents of a sequence of strings.
pub open spec fn texts(v: Seq<String>) -> Seq<Seq<char>> {
    Seq::new(v.len(), |i: int| v[i]@)
}

/// The contents of a sequence of action records.
pub open spec fn records(v: Seq<ActionRecord>) -> Seq<(Seq<char>, Seq<char>, Seq<char>)> {
    Seq::new(v.len(), |i: int| v[i]@)
}

impl View for WireValue {
    type V = WireValueView;

    open spec fn view(&self) -> WireValueView {
        match self {
            WireValue::Text(s) => WireValueView::Text(s@),
            WireValue::Flag(b) => WireValueView::Flag(*b),
            WireValue::Int32(n) => WireValueView::Int32(*n as int),
            WireValue::TextList(v) => WireValueView::TextList(texts(v@)),
            WireValue::Image(i) => WireValueView::Image(i@),
            WireValue::ActionList(v) => WireValueView::ActionList(records(v@)),
        }
    }
}

/// One entry of a variant dictionary.
#[derive(Debug, Clone, PartialEq, Eq)]
pub struct DictEntry {
    pub key: String,
    pub value: WireValue,
}

impl View for DictEntry {
    type V = (Seq<char>, WireValueView);

    open spec fn view(&self) -> (Seq<char>, WireValueView) {
        (self.key@, self.value@)
    }
}

/// The entries of a dictionary as written, in order.
pub type Entries = Seq<(Seq<char>, WireValueView)>;

/// The contents of a sequence of dictionary entries.
pub open spec fn entries(v: Seq<DictEntry>) -> Entries {
    Seq::new(v.len(), |i: int| v[i]@)
}

/// The dictionary that a sequence of entries builds: each entry is inserted
/// in turn.
pub open spec fn dict_of(e: Entries) -> Map<Seq<char>, WireValueView>
    decreases e.len(),
{
    if e.len() == 0 {
        Map::empty()
    } else {
        dict_of(e.drop_last()).insert(e.last().0, e.last().1)
    }
}

/// No key stands twice among the entries.
pub open spec fn keys_distinct(e: Entries) -> bool {
    forall|i: int, j: int| 0 <= i < j < e.len() ==> e[i].0 != e[j].0
}

/// `e` with one more entry, where `present` holds; else `e` itself.
pub open spec fn with_entry(e: Entries, present: bool, key: Seq<char>, value: WireValueView) -> Entries {
    if present {
        e.push((key, value))
    } else {
        e
    }
}

/// The dictionary of `e.push(..)` is that of `e` with the pushed entry
/// inserted.
pub proof fn lemma_dict_push(e: Entries, key: Seq<char>, value: WireValueView)
    ensures
        dict_of(e.push((key, value))) == dict_of(e).insert(key, value),
{
    let p = e.push((key, value));
    assert(p.drop_last() =~= e);
    assert(p.last() == (key, value));
}

/// A match as the bus carries it: six positional fields.
#[derive(Debug, Clone, PartialEq, Eq)]
pub struct MatchRecord {
    pub id: String,
    pub title: String,
    /// The icon name; empty where the icon is inline image data.
    pub icon: String,
    /// The number of the match type.
    pub ty: i32,
    /// The relevance as the bit pattern of a 64-bit IEEE 754 number.
    pub relevance: u64,
    /// The dictionary of the fields that are set.
    pub extra: Vec<DictEntry>,
}

/// What a `MatchRecord` holds.
pub struct MatchRecordView {
    pub id: Seq<char>,
    pub title: Seq<char>,
    pub icon: Seq<char>,
    pub ty: int,
    pub relevance: u64,
    pub extra: Entries,
}

impl View for MatchRecord {
    type V = MatchRecordView;

    open spec fn view(&self) -> MatchRecordView {
        MatchRecordView {
            id: self.id@,
            title: self.title@,
            icon: self.icon@,
            ty: self.ty as int,
            relevance: self.relevance,
            extra: entries(self.extra@),
        }
    }
}

/// The contents of a sequence of match records.
pub open spec fn match_records(v: Seq<MatchRecord>) -> Seq<MatchRecordView> {
    Seq::new(v.len(), |i: int| v[i]@)
}

/// The records that a sequence of matches is sent as, in order.
pub open spec fn match_wires<A: Action>(v: Seq<Match<A>>) -> Seq<MatchRecordView> {
    Seq::new(v.len(), |i: int| v[i].wire())
}

/// The signature of a match record on the bus: three strings, a signed
/// 32-bit integer, a double and a variant dictionary.
pub const MATCH_SIGNATURE: &'static str = "(sssida{sv})";

/// The signature of a variant dictionary on the bus.
pub const DICT_SIGNATURE: &'static str = "a{sv}";

/// The signature of an image record on the bus: three signed 32-bit
/// integers, a boolean, two more integers and an array of bytes.
pub const IMAGE_SIGNATURE: &'static str = "(iiibiiay)";

/// A copy of a vector of strings.
pub fn copy_texts(v: &Vec<String>) -> (r: Vec<String>)
    ensures
        r@ == v@,
{
    let mut r: Vec<String> = Vec::new();
    let mut i: usize = 0;
    while i < v.len()
        invariant
            i <= v.len(),
            r@ == v@.take(i as int),
        decreases v.len() - i,
    {
        r.push(v[i].clone());
        assert(v@.take(i + 1) =~= v@.take(i as int).push(v@[i as int]));
        i = i + 1;
    }
    assert(v@.take(v.len() as int) =~= v@);
    r
}

/// A copy of a vector of bytes.
pub fn copy_bytes(v: &Vec<u8>) -> (r: Vec<u8>)
    ensures
        r@ == v@,
{
    let mut r: Vec<u8> = Vec::new();
    let mut i: usize = 0;
    while i < v.len()
        invariant
            i <= v.len(),
            r@ == v@.take(i as int),
        decreases v.len() - i,
    {
        r.push(v[i]);
        assert(v@.take(i + 1) =~= v@.take(i as int).push(v@[i as int]));
        i = i + 1;
    }
    assert(v@.take(v.len() as int) =~= v@);
    r
}

impl ImageData {
    /// The image as the seven-field record of the bus.
    pub fn encode(&self) -> (r: RemoteImage)
        ensures
            r@ == self.wire(),
    {
        RemoteImage {
            width: self.width,
            height: self.height,
            row_stride: self.row_stride,
            has_alpha: self.has_alpha,
            bits_per_sample: self.format.bits_per_sample(),
            channels: self.format.channels(),
            data: copy_bytes(&self.data),
        }
    }
}

impl<A: Action> Match<A> {
    /// The dictionary entries of the match: one for each field that is set,
    /// none for a field that has its default value.
    pub open spec fn extra_fields(&self) -> Entries {
        let e0 = Seq::<(Seq<char>, WireValueView)>::empty();
        let e1 = with_entry(e0, self.urls@.len() > 0, "urls"@, WireValueView::TextList(texts(self.urls@)));
        let e2 = with_entry(
            e1,
            self.category is Some,
            "category"@,
            WireValueView::Text(self.category->Some_0@),
        );
        let e3 = with_entry(
            e2,
            self.subtitle is Some,
            "subtitle"@,
            WireValueView::Text(self.subtitle->Some_0@),
        );
        let e4 = with_entry(e3, self.multiline, "multiline"@, WireValueView::Flag(true));
        let e5 = with_entry(
            e4,
            self.actions@.len() > 0,
            "actions"@,
            WireValueView::TextList(action_ids(self.actions@)),
        );
        with_entry(
            e5,
            self.icon is Custom,
            "icon-data"@,
            WireValueView::Image(self.icon->Custom_0.wire()),
        )
    }

    /// The record that the match is sent as.
    pub open spec fn wire(&self) -> MatchRecordView {
        MatchRecordView {
            id: self.id@,
            title: self.title@,
            icon: self.icon.name(),
            ty: self.ty.tag(),
            relevance: self.relevance,
            extra: self.extra_fields(),
        }
    }

    /// The identifiers of the actions of the match, in order.
    pub fn action_ids(&self) -> (ids: Vec<String>)
        ensures
            texts(ids@) == action_ids(self.actions@),
    {
        let mut ids: Vec<String> = Vec::new();
        let mut i: usize = 0;
        while i < self.actions.len()
            invariant
                i <= self.actions.len(),
                ids.len() == i,
                forall|j: int| 0 <= j < i ==> (#[trigger] ids@[j])@ == self.actions@[j].id_of(),
            decreases self.actions.len() - i,
        {
            ids.push(self.actions[i].to_id());
            i = i + 1;
        }
        assert(texts(ids@) =~= action_ids(self.actions@));
        ids
    }

    /// Encodes the match as its positional record.
    pub fn encode(&self) -> (r: MatchRecord)
        ensures
            r@ == self.wire(),
    {
        let mut extra: Vec<DictEntry> = Vec::new();
        assert(entries(extra@) =~= Seq::<(Seq<char>, WireValueView)>::empty());
        let ghost e0 = entries(extra@);
        if self.urls.len() > 0 {
            extra.push(DictEntry { key: "urls".to_owned(), value: WireValue::TextList(copy_texts(&self.urls)) });
            assert(entries(extra@) =~= e0.push(("urls"@, WireValueView::TextList(texts(self.urls@)))));
        }
        let ghost e1 = entries(extra@);
        if let Some(category) = &self.category {
            extra.push(DictEntry { key: "category".to_owned(), value: WireValue::Text(category.clone()) });
            assert(entries(extra@) =~= e1.push(("category"@, WireValueView::Text(category@))));
        }
        let ghost e2 = entries(extra@);
        if let Some(subtitle) = &self.subtitle {
            extra.push(DictEntry { key: "subtitle".to_owned(), value: WireValue::Text(subtitle.clone()) });
            assert(entries(extra@) =~= e2.push(("subtitle"@, WireValueView::Text(subtitle@))));
        }
        let ghost e3 = entries(extra@);
        if self.multiline {
            extra.push(DictEntry { key: "multiline".to_owned(), value: WireValue::Flag(self.multiline) });
            assert(entries(extra@) =~= e3.push(("multiline"@, WireValueView::Flag(true))));
        }
        let ghost e4 = entries(extra@);
        if self.actions.len() > 0 {
            let ids = self.action_ids();
            extra.push(DictEntry { key: "actions".to_owned(), value: WireValue::TextList(ids) });
            assert(entries(extra@) =~= e4.push(
                ("actions"@, WireValueView::TextList(action_ids(self.actions@))),
            ));
        }
        let ghost e5 = entries(extra@);
        let icon = match &self.icon {
            MatchIcon::ByName(n) => n.clone(),
            MatchIcon::Custom(image) => {
                extra.push(DictEntry { key: "icon-data".to_owned(), value: WireValue::Image(image.encode()) });
                assert(entries(extra@) =~= e5.push(("icon-data"@, WireValueView::Image(image.wire()))));
                String::new()
            },
        };
        MatchRecord {
            id: self.id.clone(),
            title: self.title.clone(),
            icon,
            ty: self.ty.wire_tag(),
            relevance: self.relevance,
            extra,
        }
    }
}

/// One for a condition that holds, zero for one that does not.
pub open spec fn one_if(b: bool) -> nat {
    if b {
        1
    } else {
        0
    }
}

/// The six keys of the extra fields differ from one another.
pub proof fn lemma_extra_keys_differ()
    ensures
        "urls"@ != "category"@,
        "urls"@ != "subtitle"@,
        "urls"@ != "multiline"@,
        "urls"@ != "actions"@,
        "urls"@ != "icon-data"@,
        "category"@ != "subtitle"@,
        "category"@ != "multiline"@,
        "category"@ != "actions"@,
        "category"@ != "icon-data"@,
        "subtitle"@ != "multiline"@,
        "subtitle"@ != "actions"@,
        "subtitle"@ != "icon-data"@,
        "multiline"@ != "actions"@,
        "multiline"@ != "icon-data"@,
        "actions"@ != "icon-data"@,
{
    reveal_strlit("urls");
    reveal_strlit("category");
    reveal_strlit("subtitle");
    reveal_strlit("multiline");
    reveal_strlit("actions");
    reveal_strlit("icon-data");
    assert("urls"@.len() == 4);
    assert("category"@.len() == 8);
    assert("subtitle"@.len() == 8);
    assert("multiline"@.len() == 9);
    assert("actions"@.len() == 7);
    assert("icon-data"@.len() == 9);
    assert("category"@[0] != "subtitle"@[0]);
    assert("multiline"@[0] != "icon-data"@[0]);
}

/// A key stands in the dictionary of a match exactly where its field is set,
/// and then with the field's value; the dictionary holds no other key, and
/// no key twice.
pub proof fn lemma_extra_fields_present<A: Action>(m: Match<A>)
    ensures
        ({
            let d = dict_of(m.extra_fields());
            &&& d.dom().contains("urls"@) <==> m.urls@.len() > 0
            &&& d.dom().contains("category"@) <==> m.category is Some
            &&& d.dom().contains("subtitle"@) <==> m.subtitle is Some
            &&& d.dom().contains("multiline"@) <==> m.multiline
            &&& d.dom().contains("actions"@) <==> m.actions@.len() > 0
            &&& d.dom().contains("icon-data"@) <==> m.icon is Custom
            &&& m.urls@.len() > 0 ==> d["urls"@] == WireValueView::TextList(texts(m.urls@))
            &&& m.category is Some ==> d["category"@] == WireValueView::Text(m.category->Some_0@)
            &&& m.subtitle is Some ==> d["subtitle"@] == WireValueView::Text(m.subtitle->Some_0@)
            &&& m.multiline ==> d["multiline"@] == WireValueView::Flag(true)
            &&& m.actions@.len() > 0 ==> d["actions"@] == WireValueView::TextList(
                action_ids(m.actions@),
            )
            &&& m.icon is Custom ==> d["icon-data"@] == WireValueView::Image(m.icon->Custom_0.wire())
            &&& forall|k: Seq<char>| #[trigger]
                d.dom().contains(k) ==> k == "urls"@ || k == "category"@ || k == "subtitle"@ || k
                    == "multiline"@ || k == "actions"@ || k == "icon-data"@
        }),
        keys_distinct(m.extra_fields()),
        m.extra_fields().len() == one_if(m.urls@.len() > 0) + one_if(m.category is Some) + one_if(
            m.subtitle is Some,
        ) + one_if(m.multiline) + one_if(m.actions@.len() > 0) + one_if(m.icon is Custom),
{
    lemma_extra_keys_differ();
    let e0 = Seq::<(Seq<char>, WireValueView)>::empty();
    let v1 = WireValueView::TextList(texts(m.urls@));
    let e1 = with_entry(e0, m.urls@.len() > 0, "urls"@, v1);
    let v2 = WireValueView::Text(m.category->Some_0@);
    let e2 = with_entry(e1, m.category is Some, "category"@, v2);
    let v3 = WireValueView::Text(m.subtitle->Some_0@);
    let e3 = with_entry(e2, m.subtitle is Some, "subtitle"@, v3);
    let v4 = WireValueView::Flag(true);
    let e4 = with_entry(e3, m.multiline, "multiline"@, v4);
    let v5 = WireValueView::TextList(action_ids(m.actions@));
    let e5 = with_entry(e4, m.actions@.len() > 0, "actions"@, v5);
    let v6 = WireValueView::Image(m.icon->Custom_0.wire());
    let e6 = with_entry(e5, m.icon is Custom, "icon-data"@, v6);
    assert(e6 == m.extra_fields());
    assert(dict_of(e0) == Map::<Seq<char>, WireValueView>::empty());
    lemma_dict_push(e0, "urls"@, v1);
    lemma_dict_push(e1, "category"@, v2);
    lemma_dict_push(e2, "subtitle"@, v3);
    lemma_dict_push(e3, "multiline"@, v4);
    lemma_dict_push(e4, "actions"@, v5);
    lemma_dict_push(e5, "icon-data"@, v6);
    assert(forall|i: int| 0 <= i < e1.len() ==> (#[trigger] e1[i]).0 == "urls"@);
    assert(forall|i: int| 0 <= i < e2.len() ==> (#[trigger] e2[i]).0 == "urls"@ || e2[i].0 == "category"@);
    assert(forall|i: int|
        0 <= i < e3.len() ==> (#[trigger] e3[i]).0 == "urls"@ || e3[i].0 == "category"@ || e3[i].0
            == "subtitle"@);
    assert(forall|i: int|
        0 <= i < e4.len() ==> (#[trigger] e4[i]).0 == "urls"@ || e4[i].0 == "category"@ || e4[i].0
            == "subtitle"@ || e4[i].0 == "multiline"@);
    assert(forall|i: int|
        0 <= i < e5.len() ==> (#[trigger] e5[i]).0 == "urls"@ || e5[i].0 == "category"@ || e5[i].0
            == "subtitle"@ || e5[i].0 == "multiline"@ || e5[i].0 == "actions"@);
    assert(keys_distinct(e1));
    assert(keys_distinct(e2));
    assert(keys_distinct(e3));
    assert(keys_distinct(e4));
    assert(keys_distinct(e5));
    assert(keys_distinct(e6));
}

/// A match whose optional fields all have their default values has an empty
/// dictionary.
pub proof fn lemma_plain_match_no_extra<A: Action>(m: Match<A>)
    requires
        m.urls@.len() == 0,
        m.category is None,
        m.subtitle is None,
        !m.multiline,
        m.actions@.len() == 0,
        m.icon is ByName,
    ensures
        m.extra_fields() == Seq::<(Seq<char>, WireValueView)>::empty(),
        m.wire().extra.len() == 0,
{
}

/// Encoding is a function of the value: two encodings of one match hold the
/// same record, and so do those of two equal matches.
pub proof fn lemma_match_encoding_determined<A: Action>(a: Match<A>, b: Match<A>, ra: MatchRecord, rb: MatchRecord)
    requires
        a == b,
        ra@ == a.wire(),
        rb@ == b.wire(),
    ensures
        ra@ == rb@,
{
}

/// Two encodings of one configuration hold the same dictionary.
pub proof fn lemma_config_encoding_determined<A: Action>(
    a: Config<A>,
    b: Config<A>,
    ra: Vec<DictEntry>,
    rb: Vec<DictEntry>,
)
    requires
        a == b,
        entries(ra@) == a.wire(),
        entries(rb@) == b.wire(),
    ensures
        entries(ra@) == entries(rb@),
{
}

/// Encodes matches one by one, in order.
pub fn encode_matches<A: Action>(matches: &Vec<Match<A>>) -> (r: Vec<MatchRecord>)
    ensures
        match_records(r@) == match_wires(matches@),
{
    let mut r: Vec<MatchRecord> = Vec::new();
    let mut i: usize = 0;
    while i < matches.len()
        invariant
            i <= matches.len(),
            r.len() == i,
            forall|j: int| 0 <= j < i ==> (#[trigger] r@[j])@ == matches@[j].wire(),
        decreases matches.len() - i,
    {
        r.push(matches[i].encode());
        i = i + 1;
    }
    assert(match_records(r@) =~= match_wires(matches@));
    r
}

/// The bus records of every action of the type, in display order.
pub fn all_action_records<A: Action>() -> (r: Vec<ActionRecord>)
    ensures
        records(r@) == action_records(A::all_values()),
{
    let all = A::all();
    let mut r: Vec<ActionRecord> = Vec::new();
    let mut i: usize = 0;
    while i < all.len()
        invariant
            i <= all.len(),
            r.len() == i,
            all@ == A::all_values(),
            forall|j: int| 0 <= j < i ==> (#[trigger] r@[j])@ == crate::action::action_record(all@[j]),
        decreases all.len() - i,
    {
        r.push(action_as_arg(&all[i]));
        i = i + 1;
    }
    assert(records(r@) =~= action_records(A::all_values()));
    r
}

impl<A: Action> Config<A> {
    /// The dictionary entries of the configuration: the filter and the
    /// minimum length where they are set, and always the list of all actions.
    pub open spec fn wire(&self) -> Entries {
        let e0 = Seq::<(Seq<char>, WireValueView)>::empty();
        let e1 = match self.match_filter {
            Some(MatchFilter::Keywords(words)) => e0.push(
                ("TriggerWords"@, WireValueView::TextList(texts(words@))),
            ),
            Some(MatchFilter::Regex(regex)) => e0.push(("MatchRegex"@, WireValueView::Text(regex@))),
            None => e0,
        };
        let e2 = with_entry(
            e1,
            self.min_letter_count is Some,
            "MinLetterCount"@,
            WireValueView::Int32(self.min_letter_count->Some_0 as int),
        );
        e2.push(("Actions"@, WireValueView::ActionList(action_records(A::all_values()))))
    }

    /// Whether the filter is a list of trigger words.
    pub open spec fn has_keywords(&self) -> bool {
        self.match_filter is Some && self.match_filter->Some_0 is Keywords
    }

    /// Whether the filter is a regular expression.
    pub open spec fn has_regex(&self) -> bool {
        self.match_filter is Some && self.match_filter->Some_0 is Regex
    }

    /// Encodes the configuration as its variant dictionary.
    pub fn encode(&self) -> (r: Vec<DictEntry>)
        ensures
            entries(r@) == self.wire(),
    {
        let mut fields: Vec<DictEntry> = Vec::new();
        assert(entries(fields@) =~= Seq::<(Seq<char>, WireValueView)>::empty());
        let ghost e0 = entries(fields@);
        match &self.match_filter {
            Some(MatchFilter::Keywords(words)) => {
                fields.push(
                    DictEntry { key: "TriggerWords".to_owned(), value: WireValue::TextList(copy_texts(words)) },
                );
                assert(entries(fields@) =~= e0.push(
                    ("TriggerWords"@, WireValueView::TextList(texts(words@))),
                ));
            },
            Some(MatchFilter::Regex(regex)) => {
                fields.push(DictEntry { key: "MatchRegex".to_owned(), value: WireValue::Text(regex.clone()) });
                assert(entries(fields@) =~= e0.push(("MatchRegex"@, WireValueView::Text(regex@))));
            },
            None => {},
        }
        let ghost e1 = entries(fields@);
        if let Some(min_letter_count) = self.min_letter_count {
            fields.push(
                DictEntry { key: "MinLetterCount".to_owned(), value: WireValue::Int32(min_letter_count) },
            );
            assert(entries(fields@) =~= e1.push(
                ("MinLetterCount"@, WireValueView::Int32(min_letter_count as int)),
            ));
        }
        let ghost e2 = entries(fields@);
        let actions = all_action_records::<A>();
        fields.push(DictEntry { key: "Actions".to_owned(), value: WireValue::ActionList(actions) });
        assert(entries(fields@) =~= e2.push(
            ("Actions"@, WireValueView::ActionList(action_records(A::all_values()))),
        ));
        fields
    }
}

/// The dictionary of a configuration always holds the list of all actions;
/// it holds the trigger words or the regular expression where the filter is
/// the one or the other, never both; and the minimum length where it is set.
/// It holds no key twice.
pub proof fn lemma_config_fields_present<A: Action>(c: Config<A>)
    ensures
        ({
            let d = dict_of(c.wire());
            &&& d.dom().contains("Actions"@)
            &&& d["Actions"@] == WireValueView::ActionList(action_records(A::all_values()))
            &&& d.dom().contains("TriggerWords"@) <==> c.has_keywords()
            &&& d.dom().contains("MatchRegex"@) <==> c.has_regex()
            &&& !(d.dom().contains("TriggerWords"@) && d.dom().contains("MatchRegex"@))
            &&& d.dom().contains("MinLetterCount"@) <==> c.min_letter_count is Some
            &&& c.has_keywords() ==> d["TriggerWords"@] == WireValueView::TextList(
                texts(c.match_filter->Some_0->Keywords_0@),
            )
            &&& c.has_regex() ==> d["MatchRegex"@] == WireValueView::Text(
                c.match_filter->Some_0->Regex_0@,
            )
            &&& c.min_letter_count is Some ==> d["MinLetterCount"@] == WireValueView::Int32(
                c.min_letter_count->Some_0 as int,
            )
        }),
        keys_distinct(c.wire()),
        c.wire().len() == one_if(c.match_filter is Some) + one_if(c.min_letter_count is Some) + 1,
{
    reveal_strlit("Actions");
    reveal_strlit("TriggerWords");
    reveal_strlit("MatchRegex");
    reveal_strlit("MinLetterCount");
    assert("Actions"@.len() == 7);
    assert("TriggerWords"@.len() == 12);
    assert("MatchRegex"@.len() == 10);
    assert("MinLetterCount"@.len() == 14);
    let e0 = Seq::<(Seq<char>, WireValueView)>::empty();
    let e1 = match c.match_filter {
        Some(MatchFilter::Keywords(words)) => e0.push(
            ("TriggerWords"@, WireValueView::TextList(texts(words@))),
        ),
        Some(MatchFilter::Regex(regex)) => e0.push(("MatchRegex"@, WireValueView::Text(regex@))),
        None => e0,
    };
    let v2 = WireValueView::Int32(c.min_letter_count->Some_0 as int);
    let e2 = with_entry(e1, c.min_letter_count is Some, "MinLetterCount"@, v2);
    let v3 = WireValueView::ActionList(action_records(A::all_values()));
    let e3 = e2.push(("Actions"@, v3));
    assert(e3 == c.wire());
    assert(dict_of(e0) == Map::<Seq<char>, WireValueView>::empty());
    match c.match_filter {
        Some(MatchFilter::Keywords(words)) => {
            lemma_dict_push(e0, "TriggerWords"@, WireValueView::TextList(texts(words@)));
        },
        Some(MatchFilter::Regex(regex)) => {
            lemma_dict_push(e0, "MatchRegex"@, WireValueView::Text(regex@));
        },
        None => {},
    }
    lemma_dict_push(e1, "MinLetterCount"@, v2);
    lemma_dict_push(e2, "Actions"@, v3);
    assert(forall|i: int|
        0 <= i < e1.len() ==> (#[trigger] e1[i]).0 == "TriggerWords"@ || e1[i].0 == "MatchRegex"@);
    assert(forall|i: int|
        0 <= i < e2.len() ==> (#[trigger] e2[i]).0 == "TriggerWords"@ || e2[i].0 == "MatchRegex"@
            || e2[i].0 == "MinLetterCount"@);
    assert(keys_distinct(e1));
    assert(keys_distinct(e2));
    assert(keys_distinct(e3));
}

} // verus!

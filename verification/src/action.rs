//! The action identity contract: a closed set of actions, each with a stable
//! string identifier and display metadata.
use vstd::prelude::*;

verus! {

/// Display metadata of one action.
#[derive(Debug, Clone, PartialEq, Eq)]
pub struct ActionInfo {
    /// The title of the action.
    pub title: String,
    /// The name of the icon of the action.
    pub icon: String,
}

/// An action flattened for the bus: identifier, title, icon name.
#[derive(Debug, Clone, PartialEq, Eq)]
pub struct ActionRecord {
    pub id: String,
    pub title: String,
    pub icon: String,
}

impl View for ActionRecord {
    type V = (Seq<char>, Seq<char>, Seq<char>);

    open spec fn view(&self) -> (Seq<char>, Seq<char>, Seq<char>) {
        (self.id@, self.title@, self.icon@)
    }
}

/// A closed, plugin-defined set of actions that a user may perform on a match.
///
/// An implementation names its values with `all_values`, gives each an
/// identifier with `id_of`, and proves the identity laws: the identifiers are
/// never empty, `id_lookup` is the exact inverse of `id_of`, and `all_values`
/// lists every value exactly once.
pub trait Action: Sized {
    /// Every value of the type, in display order.
    spec fn all_values() -> Seq<Self>;

    /// The identifier of a value.
    spec fn id_of(&self) -> Seq<char>;

    /// The value that an identifier names, if any.
    spec fn id_lookup(id: Seq<char>) -> Option<Self>;

    /// The title of a value.
    spec fn title_of(&self) -> Seq<char>;

    /// The icon name of a value.
    spec fn icon_of(&self) -> Seq<char>;

    /// `all_values` lists every value of the type, each once.
    proof fn law_all_complete(a: Self)
        ensures
            Self::all_values().contains(a),
            Self::all_values().no_duplicates(),
    ;

    /// No identifier is empty.
    proof fn law_id_not_empty(a: Self)
        ensures
            a.id_of().len() > 0,
    ;

    /// `id_lookup` finds exactly the value whose identifier it is given.
    proof fn law_lookup_inverse(a: Self, id: Seq<char>)
        ensures
            Self::id_lookup(id) == Some(a) <==> a.id_of() == id,
    ;

    /// Every action possible of this type.
    fn all() -> (v: Vec<Self>)
        ensures
            v@ == Self::all_values(),
    ;

    /// Tries to get an action by its unique identifier.
    fn from_id(s: &str) -> (r: Option<Self>)
        ensures
            r == Self::id_lookup(s@),
    ;

    /// Returns the unique identifier of the action.
    fn to_id(&self) -> (s: String)
        ensures
            s@ == self.id_of(),
    ;

    /// Returns the display metadata of the action.
    fn info(&self) -> (i: ActionInfo)
        ensures
            i.title@ == self.title_of(),
            i.icon@ == self.icon_of(),
    ;
}

/// Whether two strings hold the same text.
pub fn text_eq(a: &str, b: &str) -> (r: bool)
    ensures
        r == (a@ == b@),
{
    let x = a.to_owned();
    let y = b.to_owned();
    x == y
}

/// The bus record that `action` flattens to.
pub open spec fn action_record<A: Action>(action: A) -> (Seq<char>, Seq<char>, Seq<char>) {
    (action.id_of(), action.title_of(), action.icon_of())
}

/// The bus records of a whole sequence of actions, in order.
pub open spec fn action_records<A: Action>(actions: Seq<A>) -> Seq<(Seq<char>, Seq<char>, Seq<char>)> {
    Seq::new(actions.len(), |i: int| action_record(actions[i]))
}

/// The identifiers of a sequence of actions, in order.
pub open spec fn action_ids<A: Action>(actions: Seq<A>) -> Seq<Seq<char>> {
    Seq::new(actions.len(), |i: int| actions[i].id_of())
}

/// Flattens one action to its bus record.
pub fn action_as_arg<A: Action>(action: &A) -> (r: ActionRecord)
    ensures
        r@ == action_record(*action),
{
    let info = action.info();
    ActionRecord { id: action.to_id(), title: info.title, icon: info.icon }
}

/// Round trip: looking up the identifier of an action gives that action back.
pub proof fn lemma_round_trip<A: Action>(a: A)
    ensures
        A::id_lookup(a.id_of()) == Some(a),
{
    A::law_lookup_inverse(a, a.id_of());
}

/// The empty identifier names no action.
pub proof fn lemma_empty_id_unknown<A: Action>()
    ensures
        A::id_lookup(Seq::<char>::empty()) is None,
{
    if A::id_lookup(Seq::<char>::empty()) is Some {
        let a = A::id_lookup(Seq::<char>::empty())->Some_0;
        A::law_lookup_inverse(a, Seq::<char>::empty());
        A::law_id_not_empty(a);
    }
}

/// An identifier that no action carries names no action.
pub proof fn lemma_unknown_id<A: Action>(id: Seq<char>)
    requires
        forall|a: A| a.id_of() != id,
    ensures
        A::id_lookup(id) is None,
{
    if A::id_lookup(id) is Some {
        let a = A::id_lookup(id)->Some_0;
        A::law_lookup_inverse(a, id);
    }
}

/// Distinct actions have distinct identifiers.
pub proof fn lemma_ids_distinct<A: Action>(a: A, b: A)
    requires
        a != b,
    ensures
        a.id_of() != b.id_of(),
{
    A::law_lookup_inverse(a, a.id_of());
    A::law_lookup_inverse(b, a.id_of());
}

} // verus!

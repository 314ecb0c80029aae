//! Choosing reminders by number: the tokens that one listing offers, and
//! what a typed answer selects among them.

use vstd::prelude::*;
use vstd::string::*;
use crate::oye::{Reminder, ReminderId, ReminderView};
use crate::text::{
    decimal, decimal_string, is_white_space, lemma_decimal_injective, lemma_leading_white_space,
    split_words, trim, trimmed, words,
};

verus! {

/// The token of the reminder at position `i` of a listing, counted from 0:
/// its position counted from 1, as a decimal numeral.
pub open spec fn token_of(i: int) -> Seq<char> {
    decimal((i + 1) as nat)
}

/// Reminders at different positions have different tokens.
pub proof fn lemma_token_injective(i: int, j: int)
    requires
        0 <= i,
        0 <= j,
        token_of(i) == token_of(j),
    ensures
        i == j,
{
    lemma_decimal_injective((i + 1) as nat, (j + 1) as nat);
}

/// The ids of the reminders of a listing, in its order.
pub open spec fn ids_of(reminders: Seq<ReminderView>) -> Seq<Seq<char>> {
    Seq::new(reminders.len(), |i: int| reminders[i].id)
}

/// The mapping from token to reminder id that a listing with these ids
/// offers: the token of each position leads to the id at that position, and
/// there is no other token.
pub open spec fn selection_of(ids: Seq<Seq<char>>) -> Map<Seq<char>, Seq<char>> {
    Map::new(
        |token: Seq<char>| exists|i: int| 0 <= i < ids.len() && token == #[trigger] token_of(i),
        |token: Seq<char>|
            ids[choose|i: int| 0 <= i < ids.len() && token == #[trigger] token_of(i)],
    )
}

/// The token of a position of the listing is offered, and leads to the id
/// at that position.
pub proof fn lemma_selection_lookup(ids: Seq<Seq<char>>, i: int)
    requires
        0 <= i < ids.len(),
    ensures
        selection_of(ids).contains_key(token_of(i)),
        selection_of(ids)[token_of(i)] == ids[i],
{
    let token = token_of(i);
    let j = choose|j: int| 0 <= j < ids.len() && token == #[trigger] token_of(j);
    lemma_token_injective(i, j);
}

/// One offer of a selection: a token and the reminder that it stands for.
#[derive(Debug, PartialEq, Eq)]
struct Choice {
    token: String,
    id: ReminderId,
}

/// The tokens that one listing offers, each with the id of its reminder.
/// It is made from a listing and never changed: after another listing, make
/// another.
#[derive(Debug, PartialEq, Eq)]
pub struct Selection {
    choices: Vec<Choice>,
}

impl Selection {
    #[verifier::type_invariant]
    spec fn well_formed(self) -> bool {
        forall|i: int|
            0 <= i < self.choices@.len() ==> (#[trigger] self.choices@[i]).token@ == token_of(i)
    }

    /// The ids on offer, in the order of the listing.
    pub closed spec fn ids(self) -> Seq<Seq<char>> {
        Seq::new(self.choices@.len(), |i: int| self.choices@[i].id@)
    }

    /// The selection that a listing offers.
    pub fn new(reminders: &Vec<Reminder>) -> (r: Selection)
        ensures
            r.ids() == ids_of(reminders.deep_view()),
            r@ == selection_of(ids_of(reminders.deep_view())),
    {
        let mut choices: Vec<Choice> = Vec::new();
        let mut i: usize = 0;
        while i < reminders.len()
            invariant
                i <= reminders.len(),
                choices@.len() == i,
                forall|k: int| 0 <= k < i ==> (#[trigger] choices@[k]).token@ == token_of(k),
                forall|k: int| 0 <= k < i ==> (#[trigger] choices@[k]).id@ == reminders@[k].id@,
            decreases reminders.len() - i,
        {
            choices.push(Choice { token: decimal_string(i + 1), id: reminders[i].id.clone() });
            i += 1;
        }
        let r = Selection { choices };
        assert(r.ids() =~= ids_of(reminders.deep_view()));
        r
    }

    /// The id that `token` stands for, if the selection offers the token.
    pub fn get(&self, token: &str) -> (r: Option<&ReminderId>)
        ensures
            match r {
                Some(id) => self@.contains_key(token@) && self@[token@] == id@,
                None => !self@.contains_key(token@),
            },
    {
        proof {
            use_type_invariant(self);
        }
        let wanted = String::from_str(token);
        let mut i: usize = 0;
        while i < self.choices.len()
            invariant
                i <= self.choices@.len(),
                wanted@ == token@,
                forall|k: int|
                    0 <= k < self.choices@.len() ==> (#[trigger] self.choices@[k]).token@
                        == token_of(k),
                forall|k: int| 0 <= k < i ==> #[trigger] token_of(k) != token@,
            decreases self.choices@.len() - i,
        {
            if self.choices[i].token == wanted {
                proof {
                    lemma_selection_lookup(self.ids(), i as int);
                }
                return Some(&self.choices[i].id);
            }
            i += 1;
        }
        None
    }
}

impl View for Selection {
    type V = Map<Seq<char>, Seq<char>>;

    closed spec fn view(&self) -> Map<Seq<char>, Seq<char>> {
        selection_of(self.ids())
    }
}

/// The first of the typed tokens that the mapping does not offer, if there
/// is one.
pub open spec fn first_invalid(
    available: Map<Seq<char>, Seq<char>>,
    selected: Seq<Seq<char>>,
) -> Option<Seq<char>>
    decreases selected.len(),
{
    if selected.len() == 0 {
        None
    } else if !available.contains_key(selected[0]) {
        Some(selected[0])
    } else {
        first_invalid(available, selected.drop_first())
    }
}

/// No token is invalid exactly where the mapping offers each of them.
pub proof fn lemma_first_invalid_none(
    available: Map<Seq<char>, Seq<char>>,
    selected: Seq<Seq<char>>,
)
    ensures
        first_invalid(available, selected) is None <==> forall|i: int|
            0 <= i < selected.len() ==> available.contains_key(#[trigger] selected[i]),
    decreases selected.len(),
{
    if selected.len() > 0 {
        let rest = selected.drop_first();
        lemma_first_invalid_none(available, rest);
        if first_invalid(available, selected) is None {
            assert forall|i: int| 0 <= i < selected.len() implies available.contains_key(
                #[trigger] selected[i],
            ) by {
                if i > 0 {
                    assert(selected[i] == rest[i - 1]);
                }
            }
        } else if available.contains_key(selected[0]) {
            let i = choose|i: int|
                0 <= i < rest.len() && !available.contains_key(#[trigger] rest[i]);
            assert(rest[i] == selected[i + 1]);
        }
    }
}

/// The ids that the typed tokens stand for, one for each token in the order
/// typed, a repeated token giving its id again.
pub open spec fn resolved(
    available: Map<Seq<char>, Seq<char>>,
    selected: Seq<Seq<char>>,
) -> Seq<Seq<char>> {
    Seq::new(selected.len(), |i: int| available[selected[i]])
}

/// Checks that the mapping offers every typed token. The error is the first
/// token, in the order typed, that it does not offer.
pub fn are_indexes_valid(available: &Selection, selected: &Vec<String>) -> (r: Result<(), String>)
    ensures
        match r {
            Ok(()) => first_invalid(available@, selected.deep_view()) is None,
            Err(token) => first_invalid(available@, selected.deep_view()) == Some(token@),
        },
{
    let ghost typed = selected.deep_view();
    let mut i: usize = 0;
    assert(typed.skip(0) =~= typed);
    while i < selected.len()
        invariant
            i <= selected.len(),
            typed == selected.deep_view(),
            first_invalid(available@, typed) == first_invalid(available@, typed.skip(i as int)),
        decreases selected.len() - i,
    {
        assert(typed.skip(i as int)[0] == selected@[i as int]@);
        assert(typed.skip(i as int).drop_first() =~= typed.skip(i + 1));
        if available.get(selected[i].as_str()).is_none() {
            return Err(selected[i].clone());
        }
        i += 1;
    }
    Ok(())
}

impl Selection {
    /// The ids that the typed tokens stand for, in the order typed and with
    /// repetitions kept.
    pub fn resolve(&self, selected: &Vec<String>) -> (r: Vec<ReminderId>)
        requires
            first_invalid(self@, selected.deep_view()) is None,
        ensures
            r.deep_view() == resolved(self@, selected.deep_view()),
    {
        proof {
            lemma_first_invalid_none(self@, selected.deep_view());
        }
        let mut ids: Vec<ReminderId> = Vec::new();
        let mut i: usize = 0;
        while i < selected.len()
            invariant
                i <= selected.len(),
                forall|k: int|
                    0 <= k < selected.len() ==> self@.contains_key(
                        #[trigger] selected.deep_view()[k],
                    ),
                ids@.len() == i,
                forall|k: int| 0 <= k < i ==> (#[trigger] ids@[k])@ == self@[selected@[k]@],
            decreases selected.len() - i,
        {
            assert(selected.deep_view()[i as int] == selected@[i as int]@);
            let id = self.get(selected[i].as_str()).unwrap();
            ids.push(id.clone());
            i += 1;
        }
        assert(ids.deep_view() =~= resolved(self@, selected.deep_view()));
        ids
    }
}

/// What a typed answer selects.
#[derive(Debug, PartialEq, Eq)]
pub enum Answer {
    /// The answer holds no token.
    Nothing,
    /// The answer holds a token that is not on offer: this is the first.
    Invalid(String),
    /// Every token is on offer: these are the ids they stand for.
    Selected(Vec<ReminderId>),
}

/// What an `Answer` holds.
pub enum AnswerView {
    Nothing,
    Invalid(Seq<char>),
    Selected(Seq<Seq<char>>),
}

impl View for Answer {
    type V = AnswerView;

    open spec fn view(&self) -> AnswerView {
        match self {
            Answer::Nothing => AnswerView::Nothing,
            Answer::Invalid(token) => AnswerView::Invalid(token@),
            Answer::Selected(ids) => AnswerView::Selected(ids.deep_view()),
        }
    }
}

/// The tokens of a typed line: the words of the line without the white
/// space around it.
pub open spec fn typed_tokens(line: Seq<char>) -> Seq<Seq<char>> {
    words(trimmed(line))
}

/// What a typed line selects from the mapping on offer. A line without a
/// token selects nothing. One invalid token makes the whole line invalid:
/// nothing of it is selected. Else each token gives its id, in the order
/// typed.
pub open spec fn selection_answer(
    available: Map<Seq<char>, Seq<char>>,
    line: Seq<char>,
) -> AnswerView {
    let typed = typed_tokens(line);
    if typed.len() == 0 {
        AnswerView::Nothing
    } else {
        match first_invalid(available, typed) {
            Some(token) => AnswerView::Invalid(token),
            None => AnswerView::Selected(resolved(available, typed)),
        }
    }
}

/// Reads one typed answer against the selection on offer.
pub fn ask_user_to_select_reminders(available: &Selection, line: &str) -> (r: Answer)
    ensures
        r@ == selection_answer(available@, line@),
{
    let selected = split_words(trim(line));
    if selected.len() == 0 {
        return Answer::Nothing;
    }
    match are_indexes_valid(available, &selected) {
        Ok(()) => Answer::Selected(available.resolve(&selected)),
        Err(first_invalid_selection) => Answer::Invalid(first_invalid_selection),
    }
}

/// A line of white space alone, the empty line among them, holds no token.
pub proof fn lemma_blank_line_has_no_tokens(line: Seq<char>)
    requires
        forall|i: int| 0 <= i < line.len() ==> is_white_space(#[trigger] line[i]),
    ensures
        typed_tokens(line).len() == 0,
        forall|available: Map<Seq<char>, Seq<char>>| #[trigger]
            selection_answer(available, line) == AnswerView::Nothing,
{
    lemma_leading_white_space(line, line.len());
    assert(trimmed(line) =~= Seq::<char>::empty());
}

/// A line whose tokens are those of positions of the listing selects the
/// ids at these positions: one for each token, in the order typed, and
/// again for a position that is typed again.
pub proof fn lemma_valid_answer_selects_in_order(
    ids: Seq<Seq<char>>,
    line: Seq<char>,
    positions: Seq<int>,
)
    requires
        positions.len() > 0,
        forall|k: int| 0 <= k < positions.len() ==> 0 <= #[trigger] positions[k] < ids.len(),
        typed_tokens(line) == Seq::new(positions.len(), |k: int| token_of(positions[k])),
    ensures
        selection_answer(selection_of(ids), line) == AnswerView::Selected(
            Seq::new(positions.len(), |k: int| ids[positions[k]]),
        ),
{
    let available = selection_of(ids);
    let typed = typed_tokens(line);
    assert forall|k: int| 0 <= k < typed.len() implies available.contains_key(
        #[trigger] typed[k],
    ) && available[typed[k]] == ids[positions[k]] by {
        lemma_selection_lookup(ids, positions[k]);
    }
    lemma_first_invalid_none(available, typed);
    assert(resolved(available, typed) =~= Seq::new(positions.len(), |k: int| ids[positions[k]]));
}

/// A token that is the numeral of no position of the listing is not on
/// offer: so the numeral of zero, and that of a number above the length.
pub proof fn lemma_out_of_range_is_not_offered(ids: Seq<Seq<char>>, n: nat)
    requires
        n == 0 || n > ids.len(),
    ensures
        !selection_of(ids).contains_key(decimal(n)),
{
    if selection_of(ids).contains_key(decimal(n)) {
        let i = choose|i: int| 0 <= i < ids.len() && decimal(n) == #[trigger] token_of(i);
        lemma_decimal_injective(n, (i + 1) as nat);
    }
}

} // verus!

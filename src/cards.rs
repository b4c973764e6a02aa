//! Card records as the card database supplies them, and the per-card and
//! per-collection entry points.
use vstd::prelude::*;

use crate::driver::{card_model, parse_card_text};
use crate::model::{OutcomeModel, ParseOutcome};

verus! {

/// A card collection.
#[derive(Debug, Clone)]
pub struct Data {
    pub cards: Vec<JsonCard>,
}

/// One card record. Only `text_en` is read by the parser.
#[derive(Debug, Clone)]
pub struct JsonCard {
    pub id: i64,
    pub category_1: Option<String>,
    pub category_2: Option<String>,
    pub code: String,
    pub cost: String,
    pub element: Option<Vec<String>>,
    pub images: Images,
    pub ex_burst: String,
    pub job_en: String,
    pub name_en: String,
    pub text_en: Option<String>,
    pub multicard: Option<String>,
    pub power: Option<String>,
    pub rarity: Option<String>,
    pub set: String,
    pub type_en: String,
}

#[derive(Debug, Clone)]
pub struct Images {
    pub full: Vec<String>,
    pub thumbs: Vec<String>,
}

/// The outcomes for a card: none when it has no ability text.
#[verifier::opaque]
pub open spec fn card_outcomes(card: JsonCard) -> Seq<OutcomeModel> {
    match card.text_en {
        Some(t) => card_model(t@),
        None => seq![],
    }
}

/// Parses a card's ability text; a card without text yields no outcomes.
pub fn parse_card(card: &JsonCard) -> (out: Vec<ParseOutcome>)
    ensures
        out@.len() == card_outcomes(*card).len(),
        forall|i: int| 0 <= i < out@.len() ==> #[trigger] out@[i]@ == card_outcomes(*card)[i],
{
    proof {
        reveal(card_outcomes);
    }
    match &card.text_en {
        Some(t) => parse_card_text(t.as_str()),
        None => Vec::new(),
    }
}

/// How many of a sequence's outcomes are `Parsed`.
pub open spec fn parsed_count(o: Seq<OutcomeModel>) -> nat
    decreases o.len(),
{
    if o.len() == 0 {
        0
    } else {
        parsed_count(o.drop_last()) + if o.last() is Parsed { 1nat } else { 0nat }
    }
}

/// Statements that parsed and statements that fell back to `Unrecognized`.
#[derive(Debug, Clone, Copy, PartialEq, Eq, Structural)]
pub struct Coverage {
    pub parsed: usize,
    pub unrecognized: usize,
}

proof fn lemma_parsed_count_bound(o: Seq<OutcomeModel>)
    ensures
        parsed_count(o) <= o.len(),
    decreases o.len(),
{
    if o.len() > 0 {
        lemma_parsed_count_bound(o.drop_last());
    }
}

/// Counts parsed and unrecognized outcomes.
pub fn coverage(outcomes: &Vec<ParseOutcome>) -> (c: Coverage)
    ensures
        c.parsed as nat == parsed_count(outcomes@.map_values(|o: ParseOutcome| o@)),
        c.parsed + c.unrecognized == outcomes@.len(),
        c.parsed + c.unrecognized <= usize::MAX,
{
    let ghost all = outcomes@.map_values(|o: ParseOutcome| o@);
    let mut parsed: usize = 0;
    let mut i: usize = 0;
    while i < outcomes.len()
        invariant
            i <= outcomes@.len(),
            all == outcomes@.map_values(|o: ParseOutcome| o@),
            parsed as nat == parsed_count(all.subrange(0, i as int)),
            parsed <= i,
        decreases outcomes@.len() - i,
    {
        proof {
            let pre = all.subrange(0, i as int + 1);
            assert(pre.drop_last() =~= all.subrange(0, i as int));
            lemma_parsed_count_bound(all.subrange(0, i as int));
        }
        if outcomes[i].is_parsed() {
            parsed += 1;
        }
        i += 1;
    }
    assert(all.subrange(0, i as int) =~= all);
    Coverage { parsed, unrecognized: i - parsed }
}

/// Parsed statements over all cards.
pub open spec fn total_parsed(cards: Seq<JsonCard>) -> nat
    decreases cards.len(),
{
    if cards.len() == 0 {
        0
    } else {
        total_parsed(cards.drop_last()) + parsed_count(card_outcomes(cards.last()))
    }
}

/// Statements over all cards.
pub open spec fn total_statements(cards: Seq<JsonCard>) -> nat
    decreases cards.len(),
{
    if cards.len() == 0 {
        0
    } else {
        total_statements(cards.drop_last()) + card_outcomes(cards.last()).len()
    }
}

proof fn lemma_total_statements_mono(cards: Seq<JsonCard>, i: int)
    requires
        0 <= i <= cards.len(),
    ensures
        total_statements(cards.subrange(0, i)) <= total_statements(cards),
    decreases cards.len() - i,
{
    if i < cards.len() {
        lemma_total_statements_mono(cards, i + 1);
        assert(cards.subrange(0, i + 1).drop_last() =~= cards.subrange(0, i));
    } else {
        assert(cards.subrange(0, i) =~= cards);
    }
}

fn card_coverage(card: &JsonCard) -> (c: Coverage)
    ensures
        c.parsed as nat == parsed_count(card_outcomes(*card)),
        c.parsed + c.unrecognized == card_outcomes(*card).len(),
        c.parsed + c.unrecognized <= usize::MAX,
{
    let outs = parse_card(card);
    proof {
        assert(outs@.map_values(|o: ParseOutcome| o@) =~= card_outcomes(*card));
    }
    coverage(&outs)
}

/// Parses every card of a collection and sums the coverage; `None` when the
/// number of statements does not fit in `usize`.
pub fn collection_coverage(data: &Data) -> (r: Option<Coverage>)
    ensures
        match r {
            Some(c) => c.parsed as nat == total_parsed(data.cards@) && c.parsed + c.unrecognized
                == total_statements(data.cards@),
            None => total_statements(data.cards@) > usize::MAX,
        },
{
    let mut total = Coverage { parsed: 0, unrecognized: 0 };
    let mut i: usize = 0;
    while i < data.cards.len()
        invariant
            i <= data.cards@.len(),
            total.parsed as nat == total_parsed(data.cards@.subrange(0, i as int)),
            total.parsed + total.unrecognized == total_statements(data.cards@.subrange(0, i as int)),
            total.parsed + total.unrecognized <= usize::MAX,
        decreases data.cards@.len() - i,
    {
        let c = card_coverage(&data.cards[i]);
        let ghost pre = data.cards@.subrange(0, i as int + 1);
        proof {
            assert(pre.drop_last() =~= data.cards@.subrange(0, i as int));
            assert(pre.last() == data.cards@[i as int]);
            assert(total_statements(pre) == total_statements(data.cards@.subrange(0, i as int))
                + card_outcomes(data.cards@[i as int]).len());
            assert(total_parsed(pre) == total_parsed(data.cards@.subrange(0, i as int))
                + parsed_count(card_outcomes(data.cards@[i as int])));
        }
        let seen = total.parsed + total.unrecognized;
        let here = c.parsed + c.unrecognized;
        if seen > usize::MAX - here {
            proof {
                lemma_total_statements_mono(data.cards@, i as int + 1);
            }
            return None;
        }
        total = Coverage { parsed: total.parsed + c.parsed, unrecognized: total.unrecognized + c.unrecognized };
        i += 1;
    }
    assert(data.cards@.subrange(0, i as int) =~= data.cards@);
    Some(total)
}

} // verus!

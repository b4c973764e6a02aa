//! The effect tree that parsing produces.
use vstd::prelude::*;

verus! {

/// A range `[start, end)` of character positions in the card's ability text.
#[derive(Clone, Copy, Debug, PartialEq, Eq, Structural)]
pub struct Span {
    pub start: usize,
    pub end: usize,
}

/// A quantity in a template: a number, or the wildcard `_`.
#[derive(Clone, Copy, Debug, PartialEq, Eq, Structural)]
pub enum Count {
    Exactly(u8),
    Unspecified,
}

#[derive(Clone, Copy, Debug, PartialEq, Eq, Structural)]
pub enum Element {
    Fire,
    Ice,
    Wind,
    Earth,
    Lightning,
    Water,
    Light,
    Dark,
}

#[derive(Clone, Copy, Debug, PartialEq, Eq, Structural)]
pub enum CardKind {
    Forward,
    Backup,
    Character,
    Monster,
    Summon,
    Card,
}

/// Which cards a group or condition speaks of.
#[derive(Clone, Copy, Debug, PartialEq, Eq, Structural)]
pub struct Filter {
    pub element: Option<Element>,
    pub kind: CardKind,
}

#[derive(Clone, Copy, Debug, PartialEq, Eq, Structural)]
pub enum Controller {
    Anyone,
    You,
    Opponent,
}

/// How many objects of a group are meant.
#[derive(Clone, Copy, Debug, PartialEq, Eq, Structural)]
pub enum Cardinality {
    All,
    Exactly(Count),
    UpTo(Count),
}

/// The object(s) an action applies to.
#[derive(Clone, Copy, Debug, PartialEq, Eq, Structural)]
pub enum Target {
    It,
    Them,
    /// A bracketed card-name reference, `[Card Name (<name>)]`.
    Named { name: Span },
    Group { cardinality: Cardinality, filter: Filter, controller: Controller },
}

#[derive(Clone, Copy, Debug, PartialEq, Eq, Structural)]
pub enum Zone {
    Hand,
    Field,
    BreakZone,
    Deck,
    RemovedFromGame,
}

#[derive(Clone, Copy, Debug, PartialEq, Eq, Structural)]
pub enum Stat {
    Power,
}

#[derive(Clone, Copy, Debug, PartialEq, Eq, Structural)]
pub enum Duration {
    WhileConditionHolds,
    ThisTurn,
}

/// An atomic effect. `Other` holds a sub-clause whose leading words match no
/// action template; it is kept, not rejected.
#[derive(Clone, Copy, Debug, PartialEq, Eq, Structural)]
pub enum Action {
    Draw { count: Count },
    Discard { count: Count, from: Zone },
    DealDamage { amount: u32, target: Target },
    Dull { target: Target },
    Freeze { target: Target },
    Break { target: Target },
    Pay { amount: Count },
    ModifyStat { target: Target, stat: Stat, delta: u32, duration: Duration },
    MoveZone { target: Target, from: Zone, to: Zone },
    RevealTop { count: Count },
    /// `search for <count> <filter> and add it to your hand`
    Search { count: Count, filter: Filter },
    Other { text: Span },
}

/// One step of a consequence: an action, and whether its controller may
/// choose not to do it (`you may <action>`).
#[derive(Clone, Copy, Debug, PartialEq, Eq, Structural)]
pub struct Step {
    pub action: Action,
    pub optional: bool,
}

/// The subject of a trigger.
#[derive(Clone, Copy, Debug, PartialEq, Eq, Structural)]
pub enum Occurrence {
    /// A card's name written out (`seymour`).
    Name { name: Span },
    /// A bracketed reference, `[Card Name (<name>)]`.
    CardName { name: Span },
    /// The role reference `it`.
    It,
    /// The role reference `them`.
    Them,
    /// A quantified group (`all the forwards your opponent controls`).
    Group { cardinality: Cardinality, filter: Filter, controller: Controller },
}

/// An event that a trigger waits for.
#[derive(Clone, Copy, Debug, PartialEq, Eq, Structural)]
pub enum Event {
    EntersTheField,
    Attacks,
    LeavesTheField,
    IsChosen,
    IsPutIntoBreakZone,
    IsCast,
}

/// One event, or either of two (`enters the field or attacks`).
#[derive(Clone, Copy, Debug, PartialEq, Eq, Structural)]
pub enum Predicate {
    Single(Event),
    Either(Event, Event),
}

/// One boolean gate on a statement.
#[derive(Clone, Copy, Debug, PartialEq, Eq, Structural)]
pub enum Gate {
    /// `you control <min> or more <filter>`
    Count { filter: Filter, min: Count },
    /// `you have cast <min> <filter> this turn`
    CastThisTurn { filter: Filter, min: Count },
}

/// A gate, or two gates joined by `and` or `or`.
#[derive(Clone, Copy, Debug, PartialEq, Eq, Structural)]
pub enum Condition {
    Single(Gate),
    Both(Gate, Gate),
    Either(Gate, Gate),
}

/// The phrase parser that was attempted when a statement failed.
#[derive(Clone, Copy, Debug, PartialEq, Eq, Structural)]
pub enum Category {
    Statement,
    Trigger,
    Predicate,
    Condition,
    Cost,
    Consequence,
    Draw,
    Discard,
    Damage,
    Dull,
    Freeze,
    Break,
    Pay,
    ModifyStat,
    MoveZone,
    Reveal,
    Search,
}

#[derive(Clone, Copy, Debug, PartialEq, Eq, Structural)]
pub enum ErrorKind {
    SyntaxMismatch,
    CountOutOfRange,
    UnknownVocabulary,
    StructuralFailure,
}

/// Why a statement was not recognized: the parser attempted, the kind of
/// failure, and the character position where it failed.
#[derive(Clone, Copy, Debug, PartialEq, Eq, Structural)]
pub struct Diagnostic {
    pub category: Category,
    pub kind: ErrorKind,
    pub at: usize,
}

/// The name of a phrase parser category, as a reader would say it.
pub open spec fn category_name(c: Category) -> Seq<char> {
    match c {
        Category::Statement => "statement kind"@,
        Category::Trigger => "trigger"@,
        Category::Predicate => "predicate"@,
        Category::Condition => "condition"@,
        Category::Cost => "cost"@,
        Category::Consequence => "consequence"@,
        Category::Draw => "draw"@,
        Category::Discard => "discard"@,
        Category::Damage => "damage"@,
        Category::Dull => "dull"@,
        Category::Freeze => "freeze"@,
        Category::Break => "break"@,
        Category::Pay => "pay"@,
        Category::ModifyStat => "stat change"@,
        Category::MoveZone => "zone move"@,
        Category::Reveal => "reveal"@,
        Category::Search => "search"@,
    }
}

pub open spec fn kind_text(k: ErrorKind) -> Seq<char> {
    match k {
        ErrorKind::SyntaxMismatch => "the phrase does not match its template"@,
        ErrorKind::CountOutOfRange => "a count is out of range"@,
        ErrorKind::UnknownVocabulary => "no known phrase matched"@,
        ErrorKind::StructuralFailure => "no statement keyword or action was found"@,
    }
}

impl Category {
    pub fn name(&self) -> (r: &'static str)
        ensures
            r@ == category_name(*self),
    {
        match self {
            Category::Statement => "statement kind",
            Category::Trigger => "trigger",
            Category::Predicate => "predicate",
            Category::Condition => "condition",
            Category::Cost => "cost",
            Category::Consequence => "consequence",
            Category::Draw => "draw",
            Category::Discard => "discard",
            Category::Damage => "damage",
            Category::Dull => "dull",
            Category::Freeze => "freeze",
            Category::Break => "break",
            Category::Pay => "pay",
            Category::ModifyStat => "stat change",
            Category::MoveZone => "zone move",
            Category::Reveal => "reveal",
            Category::Search => "search",
        }
    }
}

impl ErrorKind {
    pub fn text(&self) -> (r: &'static str)
        ensures
            r@ == kind_text(*self),
    {
        match self {
            ErrorKind::SyntaxMismatch => "the phrase does not match its template",
            ErrorKind::CountOutOfRange => "a count is out of range",
            ErrorKind::UnknownVocabulary => "no known phrase matched",
            ErrorKind::StructuralFailure => "no statement keyword or action was found",
        }
    }
}

impl Diagnostic {
    /// A human-readable reason: the parser attempted and why it failed.
    pub fn describe(&self) -> (r: String)
        ensures
            r@ == category_name(self.category) + ": "@ + kind_text(self.kind),
    {
        let mut r = self.category.name().to_owned();
        r.append(": ");
        r.append(self.kind.text());
        r
    }
}

/// One parsed ability.
#[derive(Clone, Debug)]
pub enum Statement {
    Triggered {
        subject: Occurrence,
        predicate: Predicate,
        condition: Option<Condition>,
        consequence: Vec<Step>,
    },
    Static { condition: Option<Condition>, effect: Vec<Step> },
    Activated { cost: Action, effect: Vec<Step> },
    /// `<consequence> instead`: the effect replaces what would have happened.
    Replacement { effect: Vec<Step> },
}

/// The mathematical value of a `Statement`.
pub ghost enum StatementModel {
    Triggered {
        subject: Occurrence,
        predicate: Predicate,
        condition: Option<Condition>,
        consequence: Seq<Step>,
    },
    Static { condition: Option<Condition>, effect: Seq<Step> },
    Activated { cost: Action, effect: Seq<Step> },
    Replacement { effect: Seq<Step> },
}

impl View for Statement {
    type V = StatementModel;

    open spec fn view(&self) -> StatementModel {
        match self {
            Statement::Triggered { subject, predicate, condition, consequence } =>
                StatementModel::Triggered {
                    subject: *subject,
                    predicate: *predicate,
                    condition: *condition,
                    consequence: consequence@,
                },
            Statement::Static { condition, effect } =>
                StatementModel::Static { condition: *condition, effect: effect@ },
            Statement::Activated { cost, effect } =>
                StatementModel::Activated { cost: *cost, effect: effect@ },
            Statement::Replacement { effect } => StatementModel::Replacement { effect: effect@ },
        }
    }
}

/// The result for one statement: parsed, or its exact text with a reason.
#[derive(Clone, Debug)]
pub enum ParseOutcome {
    Parsed(Statement),
    Unrecognized { raw_text: String, reason: Diagnostic },
}

pub ghost enum OutcomeModel {
    Parsed(StatementModel),
    Unrecognized { raw_text: Seq<char>, reason: Diagnostic },
}

impl View for ParseOutcome {
    type V = OutcomeModel;

    open spec fn view(&self) -> OutcomeModel {
        match self {
            ParseOutcome::Parsed(st) => OutcomeModel::Parsed(st@),
            ParseOutcome::Unrecognized { raw_text, reason } =>
                OutcomeModel::Unrecognized { raw_text: raw_text@, reason: *reason },
        }
    }
}

impl ParseOutcome {
    pub fn is_parsed(&self) -> (r: bool)
        ensures
            r == (self@ is Parsed),
    {
        match self {
            ParseOutcome::Parsed(_) => true,
            ParseOutcome::Unrecognized { .. } => false,
        }
    }
}

} // verus!

use card_text::actions::parse_draw_phrase;
use card_text::cards::{collection_coverage, coverage, parse_card, Data, Images, JsonCard};
use card_text::driver::{parse_card_text, span_text};
use card_text::model::{
    Action, CardKind, Cardinality, Category, Condition, Controller, Count, Diagnostic, Duration, Element,
    ErrorKind, Event, Filter, Gate, Step, Occurrence, ParseOutcome, Predicate, Span, Stat, Statement, Target, Zone,
};

fn only(text: &str) -> ParseOutcome {
    let out = parse_card_text(text);
    assert_eq!(out.len(), 1, "{:?}", out);
    out.into_iter().next().unwrap()
}

fn parsed(text: &str) -> Statement {
    match only(text) {
        ParseOutcome::Parsed(st) => st,
        other => panic!("not parsed: {:?}", other),
    }
}

fn unrecognized(text: &str) -> (String, Diagnostic) {
    match only(text) {
        ParseOutcome::Unrecognized { raw_text, reason } => (raw_text, reason),
        other => panic!("unexpectedly parsed: {:?}", other),
    }
}

fn acts(steps: &[Step]) -> Vec<Action> {
    steps.iter().map(|s| s.action).collect()
}

fn effect(st: &Statement) -> Vec<Action> {
    match st {
        Statement::Triggered { consequence, .. } => acts(consequence),
        Statement::Static { effect, .. } => acts(effect),
        Statement::Activated { effect, .. } => acts(effect),
        Statement::Replacement { effect } => acts(effect),
    }
}

#[test]
fn triggered_draw() {
    let text = "when seymour enters the field, draw 10 cards";
    match parsed(text) {
        Statement::Triggered { subject, predicate, condition, consequence } => {
            assert_eq!(subject, Occurrence::Name { name: Span { start: 5, end: 12 } });
            assert_eq!(&text[5..12], "seymour");
            assert_eq!(predicate, Predicate::Single(Event::EntersTheField));
            assert_eq!(condition, None);
            assert_eq!(acts(&consequence), vec![Action::Draw { count: Count::Exactly(10) }]);
        },
        other => panic!("{:?}", other),
    }
}

#[test]
fn draw_without_count_is_unrecognized() {
    let text = "when seymour enters the field, draw cards";
    let (raw, reason) = unrecognized(text);
    assert_eq!(raw, text);
    assert_eq!(reason, Diagnostic { category: Category::Draw, kind: ErrorKind::SyntaxMismatch, at: 36 });
}

#[test]
fn sibling_of_broken_statement_still_parses() {
    let out = parse_card_text("when seymour enters the field, draw cards. draw 2 cards");
    assert_eq!(out.len(), 2);
    assert!(!out[0].is_parsed());
    match &out[1] {
        ParseOutcome::Parsed(st) => assert_eq!(effect(st), vec![Action::Draw { count: Count::Exactly(2) }]),
        other => panic!("{:?}", other),
    }
}

#[test]
fn conditional_static_modifies_power() {
    let st = parsed("if you control 2 or more Fire backups, the forwards you control gain +1000 power");
    match st {
        Statement::Static { condition, effect } => {
            assert_eq!(
                condition,
                Some(Condition::Single(Gate::Count {
                    filter: Filter { element: Some(Element::Fire), kind: CardKind::Backup },
                    min: Count::Exactly(2),
                }))
            );
            assert_eq!(acts(&effect),
                vec![Action::ModifyStat {
                    target: Target::Group {
                        cardinality: Cardinality::All,
                        filter: Filter { element: None, kind: CardKind::Forward },
                        controller: Controller::You,
                    },
                    stat: Stat::Power,
                    delta: 1000,
                    duration: Duration::WhileConditionHolds,
                }]
            );
        },
        other => panic!("{:?}", other),
    }
}

#[test]
fn activated_discard_to_draw() {
    match parsed("you may discard 1 card to draw 2 cards") {
        Statement::Activated { cost, effect } => {
            assert_eq!(cost, Action::Discard { count: Count::Exactly(1), from: Zone::Hand });
            assert_eq!(acts(&effect), vec![Action::Draw { count: Count::Exactly(2) }]);
        },
        other => panic!("{:?}", other),
    }
}

#[test]
fn empty_text_has_no_outcomes() {
    assert!(parse_card_text("").is_empty());
    assert!(parse_card_text("   ").is_empty());
}

#[test]
fn outcomes_follow_source_order() {
    let out = parse_card_text("draw 1 card. dull it[[br]]freeze them");
    assert_eq!(out.len(), 3);
    let acts: Vec<Vec<Action>> = out
        .iter()
        .map(|o| match o {
            ParseOutcome::Parsed(st) => effect(st),
            other => panic!("{:?}", other),
        })
        .collect();
    assert_eq!(acts[0], vec![Action::Draw { count: Count::Exactly(1) }]);
    assert_eq!(acts[1], vec![Action::Dull { target: Target::It }]);
    assert_eq!(acts[2], vec![Action::Freeze { target: Target::Them }]);
}

#[test]
fn parsing_twice_gives_equal_results() {
    let text = "when seymour enters the field, draw 10 cards. hello there. you may pay 3 to dull it";
    let a = format!("{:?}", parse_card_text(text));
    let b = format!("{:?}", parse_card_text(text));
    assert_eq!(a, b);
}

#[test]
fn one_malformed_statement_among_three() {
    let out = parse_card_text("draw 1 card. when seymour enters the field, draw cards. dull it");
    assert_eq!(out.len(), 3);
    assert!(out[0].is_parsed());
    assert!(!out[1].is_parsed());
    assert!(out[2].is_parsed());
    match &out[1] {
        ParseOutcome::Unrecognized { raw_text, .. } => {
            assert_eq!(raw_text, "when seymour enters the field, draw cards")
        },
        other => panic!("{:?}", other),
    }
}

#[test]
fn count_out_of_range_degrades_to_other() {
    let st = parsed("when seymour attacks, draw 300 cards");
    assert_eq!(effect(&st), vec![Action::Other { text: Span { start: 22, end: 36 } }]);
}

#[test]
fn wildcard_count_is_unspecified() {
    let st = parsed("draw _ cards");
    assert_eq!(effect(&st), vec![Action::Draw { count: Count::Unspecified }]);
}

#[test]
fn compound_predicate_and_long_name() {
    let text = "when cloud of darkness enters the field or attacks, deal 8000 damage to all the forwards your opponent controls";
    match parsed(text) {
        Statement::Triggered { subject, predicate, consequence, .. } => {
            assert_eq!(subject, Occurrence::Name { name: Span { start: 5, end: 22 } });
            assert_eq!(predicate, Predicate::Either(Event::EntersTheField, Event::Attacks));
            assert_eq!(acts(&consequence),
                vec![Action::DealDamage {
                    amount: 8000,
                    target: Target::Group {
                        cardinality: Cardinality::All,
                        filter: Filter { element: None, kind: CardKind::Forward },
                        controller: Controller::Opponent,
                    },
                }]
            );
        },
        other => panic!("{:?}", other),
    }
}

#[test]
fn then_keeps_action_order() {
    let st = parsed("draw 1 card, then discard 1 card from your hand, then deal it 3000 damage");
    assert_eq!(
        effect(&st),
        vec![
            Action::Draw { count: Count::Exactly(1) },
            Action::Discard { count: Count::Exactly(1), from: Zone::Hand },
            Action::DealDamage { amount: 3000, target: Target::It },
        ]
    );
}

#[test]
fn unknown_leading_phrase_is_other() {
    let st = parsed("dull it, then activate them");
    assert_eq!(
        effect(&st),
        vec![Action::Dull { target: Target::It }, Action::Other { text: Span { start: 14, end: 27 } }]
    );
}

#[test]
fn literals_match_in_any_case() {
    let st = parsed("When Seymour Enters The Field, Draw 1 Card");
    assert_eq!(effect(&st), vec![Action::Draw { count: Count::Exactly(1) }]);
}

#[test]
fn trigger_condition_is_optional() {
    match parsed("whenever cloud attacks, if you control 3 or more backups, break up to 2 forwards") {
        Statement::Triggered { predicate, condition, consequence, .. } => {
            assert_eq!(predicate, Predicate::Single(Event::Attacks));
            assert_eq!(
                condition,
                Some(Condition::Single(Gate::Count { filter: Filter { element: None, kind: CardKind::Backup }, min: Count::Exactly(3) }))
            );
            assert_eq!(acts(&consequence),
                vec![Action::Break {
                    target: Target::Group {
                        cardinality: Cardinality::UpTo(Count::Exactly(2)),
                        filter: Filter { element: None, kind: CardKind::Forward },
                        controller: Controller::Anyone,
                    },
                }]
            );
        },
        other => panic!("{:?}", other),
    }
}

#[test]
fn this_turn_duration() {
    let st = parsed("it gains +2000 power this turn");
    assert_eq!(
        effect(&st),
        vec![Action::ModifyStat { target: Target::It, stat: Stat::Power, delta: 2000, duration: Duration::ThisTurn }]
    );
}

#[test]
fn no_keyword_is_structural_failure() {
    let (raw, reason) = unrecognized("  hello world  ");
    assert_eq!(raw, "hello world");
    assert_eq!(reason, Diagnostic { category: Category::Statement, kind: ErrorKind::StructuralFailure, at: 2 });
}

#[test]
fn unknown_predicate_is_reported() {
    let (_, reason) = unrecognized("when seymour sings, draw 1 card");
    assert_eq!(reason, Diagnostic { category: Category::Predicate, kind: ErrorKind::UnknownVocabulary, at: 12 });
}

#[test]
fn missing_comma_after_trigger() {
    let (_, reason) = unrecognized("when seymour attacks draw 1 card");
    assert_eq!(reason.category, Category::Trigger);
    assert_eq!(reason.kind, ErrorKind::SyntaxMismatch);
}

#[test]
fn unknown_target_is_reported() {
    let (_, reason) = unrecognized("dull everything");
    assert_eq!(reason, Diagnostic { category: Category::Dull, kind: ErrorKind::UnknownVocabulary, at: 5 });
}

#[test]
fn unknown_cost_is_reported() {
    let (_, reason) = unrecognized("sing a song: draw 1 card");
    assert_eq!(reason, Diagnostic { category: Category::Cost, kind: ErrorKind::UnknownVocabulary, at: 0 });
    let (_, reason) = unrecognized("you may sing a song to draw 1 card");
    assert_eq!(reason, Diagnostic { category: Category::Statement, kind: ErrorKind::StructuralFailure, at: 0 });
}

#[test]
fn broken_condition_is_reported() {
    let (_, reason) = unrecognized("if you have 2 summons, draw 1 card");
    assert_eq!(reason, Diagnostic { category: Category::Condition, kind: ErrorKind::UnknownVocabulary, at: 0 });
}

#[test]
fn pay_cost_and_element_filter() {
    match parsed("you may pay 3 to freeze 1 Ice forward your opponent controls") {
        Statement::Activated { cost, effect } => {
            assert_eq!(cost, Action::Pay { amount: Count::Exactly(3) });
            assert_eq!(acts(&effect),
                vec![Action::Freeze {
                    target: Target::Group {
                        cardinality: Cardinality::Exactly(Count::Exactly(1)),
                        filter: Filter { element: Some(Element::Ice), kind: CardKind::Forward },
                        controller: Controller::Opponent,
                    },
                }]
            );
        },
        other => panic!("{:?}", other),
    }
}

fn card(text: Option<&str>) -> JsonCard {
    JsonCard {
        id: 1,
        category_1: None,
        category_2: None,
        code: "1-001H".to_string(),
        cost: "3".to_string(),
        element: Some(vec!["Fire".to_string()]),
        images: Images { full: vec![], thumbs: vec![] },
        ex_burst: "0".to_string(),
        job_en: "Summoner".to_string(),
        name_en: "Seymour".to_string(),
        text_en: text.map(|t| t.to_string()),
        multicard: None,
        power: None,
        rarity: None,
        set: "1".to_string(),
        type_en: "Forward".to_string(),
    }
}

#[test]
fn card_without_text_has_no_outcomes() {
    assert!(parse_card(&card(None)).is_empty());
    assert_eq!(parse_card(&card(Some("draw 1 card. dull it"))).len(), 2);
}

#[test]
fn coverage_counts_parsed_and_unrecognized() {
    let out = parse_card_text("draw 1 card. hello. dull it");
    let c = coverage(&out);
    assert_eq!((c.parsed, c.unrecognized), (2, 1));
    let data = Data { cards: vec![card(Some("draw 1 card. hello")), card(None), card(Some("dull it"))] };
    let total = collection_coverage(&data).unwrap();
    assert_eq!((total.parsed, total.unrecognized), (2, 1));
}

#[test]
fn canonical_action_texts_read_back() {
    let out = parse_card_text("discard 12 cards. pay _. break them");
    let acts: Vec<Vec<Action>> = out
        .iter()
        .map(|o| match o {
            ParseOutcome::Parsed(st) => effect(st),
            other => panic!("{:?}", other),
        })
        .collect();
    assert_eq!(
        acts,
        vec![
            vec![Action::Discard { count: Count::Exactly(12), from: Zone::Hand }],
            vec![Action::Pay { amount: Count::Unspecified }],
            vec![Action::Break { target: Target::Them }],
        ]
    );
}

#[test]
fn reason_reads_as_text() {
    let (_, reason) = unrecognized("when seymour enters the field, draw cards");
    assert_eq!(reason.describe(), "draw: the phrase does not match its template");
    let (_, reason) = unrecognized("hello");
    assert_eq!(reason.describe(), "statement kind: no statement keyword or action was found");
}

#[test]
fn bracketed_card_name_target() {
    let text = "dull [Card Name (Brynhildr)]";
    let st = parsed(text);
    assert_eq!(effect(&st), vec![Action::Dull { target: Target::Named { name: Span { start: 17, end: 26 } } }]);
    assert_eq!(&text[17..26], "Brynhildr");
    let (_, reason) = unrecognized("dull [Card Name ()]");
    assert_eq!(reason, Diagnostic { category: Category::Dull, kind: ErrorKind::UnknownVocabulary, at: 5 });
}

#[test]
fn zone_moves_and_reveal() {
    let out = parse_card_text(
        "put it into the break zone. return them to their owners' hands. remove them from the game. reveal the top 5 cards of your deck",
    );
    let acts: Vec<Vec<Action>> = out
        .iter()
        .map(|o| match o {
            ParseOutcome::Parsed(st) => effect(st),
            other => panic!("{:?}", other),
        })
        .collect();
    assert_eq!(
        acts,
        vec![
            vec![Action::MoveZone { target: Target::It, from: Zone::Field, to: Zone::BreakZone }],
            vec![Action::MoveZone { target: Target::Them, from: Zone::Field, to: Zone::Hand }],
            vec![Action::MoveZone { target: Target::Them, from: Zone::Field, to: Zone::RemovedFromGame }],
            vec![Action::RevealTop { count: Count::Exactly(5) }],
        ]
    );
}

#[test]
fn zone_move_with_trailing_words() {
    let (_, reason) = unrecognized("remove them from the game quickly");
    assert_eq!(reason, Diagnostic { category: Category::MoveZone, kind: ErrorKind::SyntaxMismatch, at: 11 });
}

#[test]
fn span_text_reads_names_back() {
    let text = "when cloud of darkness attacks, dull it";
    match parsed(text) {
        Statement::Triggered { subject: Occurrence::Name { name }, .. } => {
            assert_eq!(span_text(text, name), Some("cloud of darkness".to_string()));
        },
        other => panic!("{:?}", other),
    }
    assert_eq!(span_text("abc", Span { start: 2, end: 5 }), None);
    assert_eq!(span_text("abc", Span { start: 2, end: 1 }), None);
}

#[test]
fn runs_of_blanks_between_words() {
    assert_eq!(effect(&parsed("draw  3 cards")), vec![Action::Draw { count: Count::Exactly(3) }]);
    assert_eq!(
        effect(&parsed("draw\t3  cards, then dull it")),
        vec![Action::Draw { count: Count::Exactly(3) }, Action::Dull { target: Target::It }]
    );
    match parsed("when  seymour\tenters  the field,  draw 1 card") {
        Statement::Triggered { subject, .. } => assert_eq!(subject, Occurrence::Name { name: Span { start: 6, end: 13 } }),
        other => panic!("{:?}", other),
    }
}

#[test]
fn count_out_of_range_is_reported_for_a_cost() {
    let (_, reason) = unrecognized("draw 256 cards: dull it");
    assert_eq!(reason, Diagnostic { category: Category::Draw, kind: ErrorKind::CountOutOfRange, at: 5 });
}

#[test]
fn bracketed_card_name_as_subject() {
    let text = "when [Card Name (Brynhildr)] enters the field, draw 1 card";
    match parsed(text) {
        Statement::Triggered { subject, predicate, consequence, .. } => {
            assert_eq!(subject, Occurrence::CardName { name: Span { start: 17, end: 26 } });
            assert_eq!(&text[17..26], "Brynhildr");
            assert_eq!(predicate, Predicate::Single(Event::EntersTheField));
            assert_eq!(acts(&consequence), vec![Action::Draw { count: Count::Exactly(1) }]);
        },
        other => panic!("{:?}", other),
    }
}

#[test]
fn role_reference_as_subject() {
    match parsed("when it attacks, dull them") {
        Statement::Triggered { subject, .. } => assert_eq!(subject, Occurrence::It),
        other => panic!("{:?}", other),
    }
    match parsed("whenever them leaves the field, draw 1 card") {
        Statement::Triggered { subject, .. } => assert_eq!(subject, Occurrence::Them),
        other => panic!("{:?}", other),
    }
}

#[test]
fn optional_clause() {
    match parsed("you may draw 1 cards") {
        Statement::Static { condition: None, effect } => {
            assert_eq!(effect, vec![Step { action: Action::Draw { count: Count::Exactly(1) }, optional: true }])
        },
        other => panic!("{:?}", other),
    }
    let (_, reason) = unrecognized("you may sing");
    assert_eq!(reason, Diagnostic { category: Category::Statement, kind: ErrorKind::StructuralFailure, at: 0 });
}

#[test]
fn optional_step_inside_a_consequence() {
    match parsed("when seymour enters the field, you may draw 1 card, then dull it") {
        Statement::Triggered { consequence, .. } => assert_eq!(
            consequence,
            vec![
                Step { action: Action::Draw { count: Count::Exactly(1) }, optional: true },
                Step { action: Action::Dull { target: Target::It }, optional: false },
            ]
        ),
        other => panic!("{:?}", other),
    }
    let st = parsed("dull it, then you may sing");
    assert_eq!(effect(&st), vec![Action::Dull { target: Target::It }, Action::Other { text: Span { start: 14, end: 26 } }]);
}

#[test]
fn draw_phrase_leaves_the_rest() {
    let text: Vec<char> = "draw\t3  cards, then".chars().collect();
    assert_eq!(parse_draw_phrase(&text, 0, text.len()), Ok((13, Count::Exactly(3))));
    let text: Vec<char> = "draw cards".chars().collect();
    assert_eq!(
        parse_draw_phrase(&text, 0, text.len()),
        Err(Diagnostic { category: Category::Draw, kind: ErrorKind::SyntaxMismatch, at: 5 })
    );
}

#[test]
fn dot_inside_card_name_does_not_split() {
    let text = "dull [Card Name (Mr. Moogle)]. draw 1 card";
    let out = parse_card_text(text);
    assert_eq!(out.len(), 2);
    match &out[0] {
        ParseOutcome::Parsed(st) => {
            assert_eq!(effect(st), vec![Action::Dull { target: Target::Named { name: Span { start: 17, end: 27 } } }])
        },
        other => panic!("{:?}", other),
    }
    assert!(out[1].is_parsed());
}

#[test]
fn temporal_and_compound_conditions() {
    let summons = Filter { element: None, kind: CardKind::Summon };
    let backups = Filter { element: Some(Element::Fire), kind: CardKind::Backup };
    match parsed("if you have cast 2 summons this turn, draw 1 card") {
        Statement::Static { condition, .. } => {
            assert_eq!(condition, Some(Condition::Single(Gate::CastThisTurn { filter: summons, min: Count::Exactly(2) })))
        },
        other => panic!("{:?}", other),
    }
    match parsed("if you control 2 or more Fire backups and you have cast 1 summon this turn, draw 1 card") {
        Statement::Static { condition, .. } => assert_eq!(
            condition,
            Some(Condition::Both(
                Gate::Count { filter: backups, min: Count::Exactly(2) },
                Gate::CastThisTurn { filter: summons, min: Count::Exactly(1) },
            ))
        ),
        other => panic!("{:?}", other),
    }
    match parsed("if you control 2 or more Fire backups or you have cast 1 summon this turn, draw 1 card") {
        Statement::Static { condition, .. } => assert!(matches!(condition, Some(Condition::Either(_, _)))),
        other => panic!("{:?}", other),
    }
}

#[test]
fn activated_with_colon() {
    match parsed("dull 1 backup: draw 1 card") {
        Statement::Activated { cost, effect } => {
            assert_eq!(
                cost,
                Action::Dull {
                    target: Target::Group {
                        cardinality: Cardinality::Exactly(Count::Exactly(1)),
                        filter: Filter { element: None, kind: CardKind::Backup },
                        controller: Controller::Anyone,
                    },
                }
            );
            assert_eq!(acts(&effect), vec![Action::Draw { count: Count::Exactly(1) }]);
        },
        other => panic!("{:?}", other),
    }
}

#[test]
fn search_action() {
    let st = parsed("you may search for 1 Fire backup and add it to your hand");
    match st {
        Statement::Static { effect, .. } => assert_eq!(
            effect,
            vec![Step {
                action: Action::Search {
                    count: Count::Exactly(1),
                    filter: Filter { element: Some(Element::Fire), kind: CardKind::Backup },
                },
                optional: true,
            }]
        ),
        other => panic!("{:?}", other),
    }
    let (_, reason) = unrecognized("search for 1 Fire backup");
    assert_eq!(reason, Diagnostic { category: Category::Search, kind: ErrorKind::SyntaxMismatch, at: 24 });
}

#[test]
fn replacement_statement() {
    match parsed("remove them from the game instead") {
        Statement::Replacement { effect } => assert_eq!(
            acts(&effect),
            vec![Action::MoveZone { target: Target::Them, from: Zone::Field, to: Zone::RemovedFromGame }]
        ),
        other => panic!("{:?}", other),
    }
}

#[test]
fn printed_draw_reads_back_for_every_count() {
    for n in 0..=255u8 {
        let text = format!("draw {} cards", n);
        assert_eq!(effect(&parsed(&text)), vec![Action::Draw { count: Count::Exactly(n) }]);
        let chars: Vec<char> = text.chars().collect();
        assert_eq!(parse_draw_phrase(&chars, 0, chars.len()), Ok((chars.len(), Count::Exactly(n))));
    }
    assert_eq!(effect(&parsed("draw _ cards")), vec![Action::Draw { count: Count::Unspecified }]);
}

#[test]
fn group_as_subject() {
    match parsed("when a forward you control attacks, draw 1 card") {
        Statement::Triggered { subject, .. } => assert!(matches!(subject, Occurrence::Name { .. })),
        other => panic!("{:?}", other),
    }
    match parsed("whenever 1 Fire forward your opponent controls leaves the field, draw 1 card") {
        Statement::Triggered { subject, predicate, .. } => {
            assert_eq!(
                subject,
                Occurrence::Group {
                    cardinality: Cardinality::Exactly(Count::Exactly(1)),
                    filter: Filter { element: Some(Element::Fire), kind: CardKind::Forward },
                    controller: Controller::Opponent,
                }
            );
            assert_eq!(predicate, Predicate::Single(Event::LeavesTheField));
        },
        other => panic!("{:?}", other),
    }
}

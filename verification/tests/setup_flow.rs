use roff_bot::commands::SetupWarnsCommands;
use roff_bot::dto::{
    OnWarnAction, Punishment, PunishmentKind, PunishmentTime, WarningGroup, WarningInfo,
};
use roff_bot::effect::Effect;
use roff_bot::handlers::{
    guard_session, setup_warnings_callback_queries_handler, setup_warnings_handler, CatalogLookup,
    SetupInput,
};
use roff_bot::repository::WarnsRepository;
use roff_bot::setup_warns::{
    handle_setup_warns_commands, parse_choice, wait_for_on_warn_callback_query_handler,
    wait_for_on_warn_handler, wait_for_points_handler, wait_for_trigger_handler,
    wait_for_warn_group_handler, CallbackQuery, SetupStep, SetupWarnState, WaitForOnWarnState,
    WaitForPointsState, WaitForTriggerState, DELETE_DATA, DELETE_LABEL, NOTHING_DATA,
    NOTHING_LABEL,
};

const OWNER_CHAT: i64 = 7;

fn group() -> WarningGroup {
    WarningGroup {
        name: "spam".to_string(),
        max_points: 100,
        punishment: Punishment { time: PunishmentTime::Time(3600), kind: PunishmentKind::Ban },
    }
}

fn say(text: &str) -> Vec<Effect> {
    vec![Effect::SendMessage { chat_id: OWNER_CHAT, text: text.to_string() }]
}

fn no_lookup() -> CatalogLookup {
    CatalogLookup { group: None, warn: None }
}

fn text(t: &str) -> SetupInput {
    SetupInput::Text(Some(t.to_string()))
}

fn press(data: &str) -> CallbackQuery {
    CallbackQuery {
        id: "query-1".to_string(),
        data: Some(data.to_string()),
        message: Some((OWNER_CHAT, 55)),
    }
}

fn wait_for_points() -> SetupWarnState {
    SetupWarnState::WaitForPoints(WaitForPointsState { chat_id: 42, group: group() })
}

fn wait_for_trigger() -> SetupWarnState {
    SetupWarnState::WaitForTrigger(WaitForTriggerState {
        chat_id: 42,
        group: group(),
        max_points: 30,
    })
}

fn wait_for_on_warn() -> SetupWarnState {
    SetupWarnState::WaitForOnWarn(WaitForOnWarnState {
        chat_id: 42,
        group: group(),
        max_points: 30,
        trigger: "foo".to_string(),
    })
}

fn existing(trigger: &str) -> WarningInfo {
    WarningInfo {
        trigger: trigger.to_string(),
        points: 5,
        group: group(),
        on_warn: OnWarnAction::Nothing,
    }
}

#[test]
fn happy_path_creates_the_warning_type() {
    let mut repo = WarnsRepository::new();
    repo.upsert_warn_group(group());
    let mut session: Option<SetupWarnState> = None;

    let step = setup_warnings_handler(
        session,
        OWNER_CHAT,
        &SetupInput::Command(SetupWarnsCommands::NewWarn { chat_id: 42 }),
        no_lookup(),
    );
    assert_eq!(step.session, Some(SetupWarnState::WaitForWarnGroup(42)));
    assert_eq!(
        step.effects,
        say("Good. Send me the name of the warn group the warn must relate to.")
    );
    session = step.session;

    let lookup = repo.lookup(&"spam".to_string());
    let step = setup_warnings_handler(session, OWNER_CHAT, &text("spam"), lookup);
    assert_eq!(step.session, Some(wait_for_points()));
    assert_eq!(
        step.effects,
        say("Good. Now send me amount of the points the user will receive by this warn.")
    );
    session = step.session;

    let lookup = repo.lookup(&"30".to_string());
    let step = setup_warnings_handler(session, OWNER_CHAT, &text("30"), lookup);
    assert_eq!(step.session, Some(wait_for_trigger()));
    assert_eq!(
        step.effects,
        say(
            "Good. Now send me a text trigger for the warn. It then will be used by `/warn \
             <trigger>` format."
        )
    );
    session = step.session;

    let lookup = repo.lookup(&"foo".to_string());
    let step = setup_warnings_handler(session, OWNER_CHAT, &text("foo"), lookup);
    assert_eq!(step.session, Some(wait_for_on_warn()));
    assert_eq!(
        step.effects,
        vec![Effect::SendOnWarnChoice {
            chat_id: OWNER_CHAT,
            text: "Good. Do you want to delete the message you reply to when warning?".to_string(),
        }]
    );
    session = step.session;

    let step = setup_warnings_callback_queries_handler(session, &press("delete"));
    assert_eq!(step.session, None);
    let created = WarningInfo {
        trigger: "foo".to_string(),
        points: 30,
        group: group(),
        on_warn: OnWarnAction::DeleteMessage,
    };
    assert_eq!(
        step.effects,
        vec![
            Effect::InsertWarnType { info: created.clone() },
            Effect::AnswerCallbackQuery { query_id: "query-1".to_string() },
            Effect::EditMessageText {
                chat_id: OWNER_CHAT,
                message_id: 55,
                text: "Selected.".to_string(),
            },
            Effect::SendMessage {
                chat_id: OWNER_CHAT,
                text: "You have added new warn type. To use it use /warn foo command".to_string(),
            },
        ]
    );

    assert_eq!(repo.settle(&step.effects, true), Ok(()));
    assert_eq!(repo.find_warn_by_trigger(&"foo".to_string()), Some(created));
}

#[test]
fn choosing_nothing_creates_a_type_that_keeps_messages() {
    let step = setup_warnings_callback_queries_handler(Some(wait_for_on_warn()), &press("nothing"));
    assert_eq!(step.session, None);
    assert_eq!(
        step.effects[0],
        Effect::InsertWarnType {
            info: WarningInfo {
                trigger: "foo".to_string(),
                points: 30,
                group: group(),
                on_warn: OnWarnAction::Nothing,
            },
        }
    );
}

#[test]
fn finishing_without_a_known_message_only_writes_and_acknowledges() {
    let query =
        CallbackQuery { id: "q".to_string(), data: Some("delete".to_string()), message: None };
    let step = wait_for_on_warn_callback_query_handler(Some(wait_for_on_warn()), &query);
    assert_eq!(step.session, None);
    assert_eq!(step.effects.len(), 2);
    assert_eq!(step.effects[1], Effect::AnswerCallbackQuery { query_id: "q".to_string() });
}

#[test]
fn cancel_clears_every_state_and_new_warn_starts_afresh() {
    let states = vec![
        Some(SetupWarnState::WaitForWarnGroup(42)),
        Some(wait_for_points()),
        Some(wait_for_trigger()),
        Some(wait_for_on_warn()),
        None,
    ];
    for state in states {
        let step = setup_warnings_handler(
            state,
            OWNER_CHAT,
            &SetupInput::Command(SetupWarnsCommands::Cancel),
            no_lookup(),
        );
        assert_eq!(step.session, None);
        assert_eq!(step.effects, say("Cancelled."));

        let step = setup_warnings_handler(
            step.session,
            OWNER_CHAT,
            &SetupInput::Command(SetupWarnsCommands::NewWarn { chat_id: 99 }),
            no_lookup(),
        );
        assert_eq!(step.session, Some(SetupWarnState::WaitForWarnGroup(99)));
    }
}

#[test]
fn second_new_warn_is_turned_down() {
    let states = vec![
        SetupWarnState::WaitForWarnGroup(42),
        wait_for_points(),
        wait_for_trigger(),
        wait_for_on_warn(),
    ];
    for state in states {
        let step = setup_warnings_handler(
            Some(state.clone()),
            OWNER_CHAT,
            &SetupInput::Command(SetupWarnsCommands::NewWarn { chat_id: 99 }),
            no_lookup(),
        );
        assert_eq!(step.session, Some(state));
        assert_eq!(step.effects, say("You already setup new warn type."));
    }
}

#[test]
fn sentinel_session_is_treated_as_absent() {
    let step = setup_warnings_handler(
        Some(SetupWarnState::WaitForWarnGroup(0)),
        OWNER_CHAT,
        &SetupInput::Command(SetupWarnsCommands::NewWarn { chat_id: 42 }),
        no_lookup(),
    );
    assert_eq!(step.session, Some(SetupWarnState::WaitForWarnGroup(42)));
    assert_eq!(
        step.effects,
        say("Good. Send me the name of the warn group the warn must relate to.")
    );
}

#[test]
fn sentinel_session_is_cleared_by_any_text() {
    let lookup = CatalogLookup { group: Some(group()), warn: None };
    let step = setup_warnings_handler(
        Some(SetupWarnState::WaitForWarnGroup(0)),
        OWNER_CHAT,
        &text("spam"),
        lookup,
    );
    assert_eq!(step.session, None);
    assert_eq!(step.effects, vec![]);
}

#[test]
fn sentinel_session_is_cleared_by_a_button_press() {
    let step = setup_warnings_callback_queries_handler(
        Some(SetupWarnState::WaitForWarnGroup(0)),
        &press("delete"),
    );
    assert_eq!(step.session, None);
    assert_eq!(step.effects, vec![]);
}

#[test]
fn default_state_is_the_sentinel() {
    assert_eq!(SetupWarnState::default(), SetupWarnState::WaitForWarnGroup(0));
    assert_eq!(guard_session(Some(SetupWarnState::default())), None);
    assert_eq!(
        guard_session(Some(SetupWarnState::WaitForWarnGroup(1))),
        Some(SetupWarnState::WaitForWarnGroup(1))
    );
    assert_eq!(guard_session(Some(wait_for_points())), Some(wait_for_points()));
    assert_eq!(guard_session(None), None);
}

#[test]
fn text_without_a_session_does_nothing() {
    let lookup = CatalogLookup { group: Some(group()), warn: Some(existing("spam")) };
    let step = setup_warnings_handler(None, OWNER_CHAT, &text("spam"), lookup);
    assert_eq!(step, SetupStep { session: None, effects: vec![] });
}

#[test]
fn duplicate_trigger_reprompts_and_keeps_group_and_points() {
    let lookup = CatalogLookup { group: None, warn: Some(existing("foo")) };
    let step = setup_warnings_handler(Some(wait_for_trigger()), OWNER_CHAT, &text("foo"), lookup);
    assert_eq!(step.session, Some(wait_for_trigger()));
    assert_eq!(step.effects, say("Warn with such trigger already exists."));

    let step = setup_warnings_handler(step.session, OWNER_CHAT, &text("bar"), no_lookup());
    assert_eq!(
        step.session,
        Some(SetupWarnState::WaitForOnWarn(WaitForOnWarnState {
            chat_id: 42,
            group: group(),
            max_points: 30,
            trigger: "bar".to_string(),
        }))
    );
}

#[test]
fn a_found_type_with_another_trigger_is_no_collision() {
    let step = wait_for_trigger_handler(
        OWNER_CHAT,
        &Some("foo".to_string()),
        &Some(existing("food")),
        WaitForTriggerState { chat_id: 42, group: group(), max_points: 30 },
    );
    assert_eq!(step.session, Some(wait_for_on_warn()));
}

#[test]
fn unknown_group_reprompts_without_transition() {
    let step = setup_warnings_handler(
        Some(SetupWarnState::WaitForWarnGroup(42)),
        OWNER_CHAT,
        &text("nope"),
        no_lookup(),
    );
    assert_eq!(step.session, Some(SetupWarnState::WaitForWarnGroup(42)));
    assert_eq!(
        step.effects,
        say(
            "There are no such warn group. Send me the name of the warn group the warn must \
             relate to."
        )
    );
}

#[test]
fn a_found_group_of_another_name_is_not_accepted() {
    let step = wait_for_warn_group_handler(OWNER_CHAT, &Some("spa".to_string()), Some(group()), 42);
    assert_eq!(step.session, Some(SetupWarnState::WaitForWarnGroup(42)));
}

#[test]
fn unparseable_points_reprompt_without_transition() {
    for bad in [
        "", "abc", "-1", "-0", "3.5", " 30", "30 ", "+", "++1", "+-1", "1_000", "0x10", "1e3",
        "18446744073709551616", "99999999999999999999999", "٣٠", "３０",
    ] {
        let step =
            setup_warnings_handler(Some(wait_for_points()), OWNER_CHAT, &text(bad), no_lookup());
        assert_eq!(step.session, Some(wait_for_points()), "input {:?}", bad);
        assert_eq!(
            step.effects,
            say("Send me the maximum points the user receive before they gets punished.")
        );
    }
}

#[test]
fn points_are_read_as_unsigned_decimal_numbers() {
    for (input, value) in
        [
            ("0", 0u64),
            ("+0", 0),
            ("000", 0),
            ("30", 30),
            ("+7", 7),
            ("007", 7),
            ("18446744073709551615", u64::MAX),
            ("+000018446744073709551615", u64::MAX),
        ]
    {
        let step = wait_for_points_handler(
            OWNER_CHAT,
            &Some(input.to_string()),
            WaitForPointsState { chat_id: 42, group: group() },
        );
        assert_eq!(
            step.session,
            Some(SetupWarnState::WaitForTrigger(WaitForTriggerState {
                chat_id: 42,
                group: group(),
                max_points: value,
            })),
            "input {:?}",
            input
        );
    }
}

#[test]
fn messages_without_text_change_nothing() {
    for state in [SetupWarnState::WaitForWarnGroup(42), wait_for_points(), wait_for_trigger()] {
        let expected = state.clone();
        let step =
            setup_warnings_handler(Some(state), OWNER_CHAT, &SetupInput::Text(None), no_lookup());
        assert_eq!(step, SetupStep { session: Some(expected), effects: vec![] });
    }
}

#[test]
fn text_while_waiting_for_a_button_is_rejected() {
    let step =
        setup_warnings_handler(Some(wait_for_on_warn()), OWNER_CHAT, &text("delete"), no_lookup());
    assert_eq!(step.session, Some(wait_for_on_warn()));
    assert_eq!(step.effects, say("Please, use one of the buttons above."));

    let step = wait_for_on_warn_handler(
        OWNER_CHAT,
        WaitForOnWarnState {
            chat_id: 42,
            group: group(),
            max_points: 30,
            trigger: "foo".to_string(),
        },
    );
    assert_eq!(step.session, Some(wait_for_on_warn()));
}

#[test]
fn button_press_outside_the_last_state_is_ignored() {
    for state in [
        None,
        Some(SetupWarnState::WaitForWarnGroup(42)),
        Some(wait_for_points()),
        Some(wait_for_trigger()),
    ] {
        let expected = state.as_ref().map(|s| s.clone());
        let step = setup_warnings_callback_queries_handler(state, &press("delete"));
        assert_eq!(step, SetupStep { session: expected, effects: vec![] });
    }
}

#[test]
fn button_press_with_unknown_data_is_ignored() {
    let step = setup_warnings_callback_queries_handler(Some(wait_for_on_warn()), &press("other"));
    assert_eq!(step, SetupStep { session: Some(wait_for_on_warn()), effects: vec![] });

    let without_data = CallbackQuery { id: "q".to_string(), data: None, message: None };
    let step = setup_warnings_callback_queries_handler(Some(wait_for_on_warn()), &without_data);
    assert_eq!(step, SetupStep { session: Some(wait_for_on_warn()), effects: vec![] });
}

#[test]
fn the_buttons_carry_the_data_that_is_read_back() {
    assert_eq!(DELETE_LABEL, "Delete message");
    assert_eq!(NOTHING_LABEL, "Do nothing");
    assert_eq!(parse_choice(&Some(DELETE_DATA.to_string())), Some(OnWarnAction::DeleteMessage));
    assert_eq!(parse_choice(&Some(NOTHING_DATA.to_string())), Some(OnWarnAction::Nothing));
    assert_eq!(parse_choice(&Some("Delete".to_string())), None);
    assert_eq!(parse_choice(&None), None);
}

#[test]
fn commands_are_handled_the_same_without_the_guard() {
    let begin = SetupWarnsCommands::NewWarn { chat_id: 0 };
    let step = handle_setup_warns_commands(None, OWNER_CHAT, &begin);
    assert_eq!(step.session, Some(SetupWarnState::WaitForWarnGroup(0)));
    let step = handle_setup_warns_commands(step.session, OWNER_CHAT, &SetupWarnsCommands::Cancel);
    assert_eq!(step, SetupStep { session: None, effects: say("Cancelled.") });
}

#[test]
fn a_created_trigger_is_taken_afterwards() {
    let mut repo = WarnsRepository::new();
    let step = setup_warnings_handler(
        Some(wait_for_trigger()),
        OWNER_CHAT,
        &text("foo"),
        repo.lookup(&"foo".to_string()),
    );
    let step = setup_warnings_callback_queries_handler(step.session, &press("nothing"));
    assert_eq!(repo.settle(&step.effects, true), Ok(()));

    let again = setup_warnings_handler(
        Some(wait_for_trigger()),
        OWNER_CHAT,
        &text("foo"),
        repo.lookup(&"foo".to_string()),
    );
    assert_eq!(again.session, Some(wait_for_trigger()));
    assert_eq!(again.effects, say("Warn with such trigger already exists."));

    let mut expected = WarnsRepository::new();
    expected.insert_warn_type(WarningInfo {
        trigger: "foo".to_string(),
        points: 30,
        group: group(),
        on_warn: OnWarnAction::Nothing,
    });
    assert_eq!(repo, expected);
}

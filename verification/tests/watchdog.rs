use sunny_bot::commands::join;
use sunny_bot::reply::Reply;
use sunny_bot::roster::check_alone;
use sunny_bot::roster::find_user_channel;
use sunny_bot::roster::VoiceState;
use sunny_bot::session::Session;
use sunny_bot::watchdog::watchdog_tick;
use sunny_bot::watchdog::IdleCounter;
use sunny_bot::watchdog::IDLE_TICK_LIMIT;

#[test]
fn counter_resets_on_company_regardless_of_prior_value() {
    for prior in 0..IDLE_TICK_LIMIT {
        let mut counter = IdleCounter { count: prior };
        let disconnect = counter.tick(false);
        assert!(!disconnect);
        assert_eq!(counter.count, 0);
    }
}

#[test]
fn five_consecutive_empty_ticks_disconnect_on_the_fifth() {
    let mut counter = IdleCounter::new();
    for tick in 1..=5u64 {
        let disconnect = counter.tick(true);
        assert_eq!(disconnect, tick == 5, "tick {}", tick);
        assert_eq!(counter.count, tick);
    }
}

#[test]
fn company_at_four_restarts_the_run() {
    let mut counter = IdleCounter::new();
    for _ in 0..4 {
        assert!(!counter.tick(true));
    }
    assert_eq!(counter.count, 4);
    // One populated check: no disconnect, and the run starts over.
    assert!(!counter.tick(false));
    assert_eq!(counter.count, 0);
    for tick in 1..=5u64 {
        let disconnect = counter.tick(true);
        assert_eq!(disconnect, tick == 5, "tick {}", tick);
    }
}

#[test]
fn watchdog_tears_session_down_after_five_empty_ticks() {
    let mut session: Option<Session> = None;
    join(&mut session, Some(7), true);
    let empty_roster: Vec<VoiceState> = Vec::new();
    for _ in 0..4 {
        let r = watchdog_tick(&mut session, &empty_roster, 99);
        assert!(r.is_none());
        assert!(session.is_some());
    }
    let r = watchdog_tick(&mut session, &empty_roster, 99);
    assert_eq!(r, Some(Reply::LeftIdle));
    assert!(session.is_none());
    assert_eq!(
        Reply::LeftIdle.message(),
        "Left voice due to lack of frens :((("
    );
}

#[test]
fn watchdog_resets_when_a_listener_is_present() {
    let mut session: Option<Session> = None;
    join(&mut session, Some(7), true);
    let empty_roster: Vec<VoiceState> = Vec::new();
    let populated = vec![VoiceState { user_id: 1, channel_id: Some(7) }];
    for _ in 0..4 {
        watchdog_tick(&mut session, &empty_roster, 99);
    }
    assert_eq!(session.as_ref().unwrap().idle.count, 4);
    let r = watchdog_tick(&mut session, &populated, 99);
    assert!(r.is_none());
    assert_eq!(session.as_ref().unwrap().idle.count, 0);
    // Five fresh empty ticks are needed again.
    for _ in 0..4 {
        let r = watchdog_tick(&mut session, &empty_roster, 99);
        assert!(r.is_none());
    }
    let r = watchdog_tick(&mut session, &empty_roster, 99);
    assert_eq!(r, Some(Reply::LeftIdle));
}

#[test]
fn watchdog_without_session_does_nothing() {
    let mut session: Option<Session> = None;
    let roster: Vec<VoiceState> = Vec::new();
    let r = watchdog_tick(&mut session, &roster, 99);
    assert!(r.is_none());
    assert!(session.is_none());
}

#[test]
fn check_alone_ignores_the_bot_and_other_channels() {
    let bot = 99;
    let channel = 7;
    assert!(check_alone(&Vec::new(), channel, bot));
    // The bot's own presence does not count as company.
    let only_bot = vec![VoiceState { user_id: bot, channel_id: Some(channel) }];
    assert!(check_alone(&only_bot, channel, bot));
    // A member elsewhere, or in no channel, does not count either.
    let elsewhere = vec![
        VoiceState { user_id: 1, channel_id: Some(8) },
        VoiceState { user_id: 2, channel_id: None },
    ];
    assert!(check_alone(&elsewhere, channel, bot));
    // One non-bot member in the channel means the bot is not alone.
    let company = vec![
        VoiceState { user_id: bot, channel_id: Some(channel) },
        VoiceState { user_id: 3, channel_id: Some(channel) },
    ];
    assert!(!check_alone(&company, channel, bot));
}

#[test]
fn find_user_channel_reads_the_roster() {
    let roster = vec![
        VoiceState { user_id: 1, channel_id: Some(7) },
        VoiceState { user_id: 2, channel_id: None },
    ];
    assert_eq!(find_user_channel(&roster, 1), Some(7));
    assert_eq!(find_user_channel(&roster, 2), None);
    assert_eq!(find_user_channel(&roster, 3), None);
}

use relaybot::action::{ActionType, IrcChannel};
use relaybot::episode::{
    generate_msg, last_ep_from_eplist, next_ep_from_eplist, AirDate, EpData, Episode, ShowData, ShowStatus,
};
use relaybot::listings::{
    current_and_next, epic_message, free_games, gdq_message, people, voice_message, GameOffer, Run, VoiceClient,
};
use relaybot::wikipedia::{summary_reply, summary_text, SummaryOutcome};
use relaybot::wolfram::{response_from_nodes, WaNode};
use relaybot::rss::{
    add_feed_reply, announcements, entry_message, list_feeds, FeedEntry, remove_feed_reply, AddFeedOutcome, FeedInfo, RemoveFeedOutcome,
};
use relaybot::weather::{
    fmi_message, owm_message, wawa_text, weather_from_series, weather_location, weatherset_reply, FmiWeather,
    OwmWeather, Series,
};

fn s(x: &str) -> Option<String> {
    Some(x.to_string())
}

#[test]
fn fmi_report() {
    let d = FmiWeather {
        place: s("Helsinki Kaisaniemi"),
        temperature: s("-1.3"),
        wind: s("6.5"),
        gust: s("9.0"),
        feels_like: s("-5.9"),
        humidity: s("80"),
        cloudiness: None,
        wawa: s("jäätävää heikkoa vesisadetta"),
    };
    assert_eq!(
        fmi_message(&d),
        "Helsinki Kaisaniemi: lämpötila: -1.3°C, tuntuu kuin: -5.9°C, tuulen nopeus: 6.5m/s, puuskat: 9.0m/s, ilman kosteus: 80%, jäätävää heikkoa vesisadetta"
    );
    let bare = FmiWeather {
        place: None,
        temperature: s("2"),
        wind: None,
        gust: None,
        feels_like: None,
        humidity: None,
        cloudiness: s("8"),
        wawa: None,
    };
    assert_eq!(fmi_message(&bare), "lämpötila: 2°C, pilvisyys: 8/8");
}

#[test]
fn owm_report() {
    let d = OwmWeather {
        place: s("Zurich, CH"),
        temperature: s("10.8"),
        wind: s("2.1"),
        feels_like: s("7.6"),
        humidity: None,
        cloudiness: s("0"),
        description: s("clear sky"),
    };
    assert_eq!(
        owm_message(&d),
        "Zurich, CH: temperature: 10.8°C, feels like: 7.6°C, wind speed: 2.1m/s, cloudiness: 0%, clear sky"
    );
}

#[test]
fn listings() {
    assert_eq!(epic_message(&vec![]), "Ei ilmaisia pelejä Epicissä.");
    assert_eq!(
        epic_message(&vec!["A".to_string(), "B C".to_string()]),
        "Epicissä nyt ilmaiseksi: A, B C"
    );
    assert_eq!(gdq_message("Game 1", "Game 2"), "Now playing: Game 1 | Up next: Game 2");
    assert_eq!(voice_message(&vec![]), "TS:ssä ei ole ketään");
    assert_eq!(voice_message(&vec!["x".to_string()]), "TS:ssä on 1 käyttäjä: x");
    assert_eq!(
        voice_message(&vec!["x".to_string(), "y".to_string(), "z".to_string()]),
        "TS:ssä on 3 käyttäjää: x, y, z"
    );
}

#[test]
fn feed_listing() {
    let feeds = vec![FeedInfo {
        id: 1,
        title: "T-botti test feed".to_string(),
        url: "https://example.com/rss".to_string(),
        target: IrcChannel::new("testnetwork", "#testing"),
    }];
    let src = IrcChannel::new("testnetwork", "#testing");
    let out = list_feeds(&src, &feeds);
    assert_eq!(out.len(), 1);
    assert_eq!(out[0].target, src);
    assert_eq!(out[0].action_type, ActionType::Message("1: T-botti test feed | https://example.com/rss".to_string()));
    assert_eq!(
        entry_message("T-botti test feed", "Test entry 01", "https://example.com/testpost01"),
        "[T-botti test feed] Test entry 01 <https://example.com/testpost01>"
    );
}

fn ep(name: Option<&str>, date: Option<(i64, u32, u32, i64)>, season: Option<i64>, number: Option<i64>) -> EpData {
    EpData {
        name: name.map(|n| n.to_string()),
        airdate: date.map(|(year, month, day, days_from_today)| AirDate { year, month, day, days_from_today }),
        season,
        number,
    }
}

#[test]
fn episode_messages() {
    let running = ShowData {
        showname: "The Simpsons".to_string(),
        status: Some(ShowStatus::Running),
        previousep: None,
        nextep: Some(ep(Some("Treehouse"), Some((2024, 10, 6, 3)), Some(36), Some(4))),
    };
    assert_eq!(
        generate_msg(&running),
        "Next episode of The Simpsons 36x4 'Treehouse' airs on 2024-10-06, 3 days from now"
    );
    let no_next = ShowData {
        showname: "The Simpsons".to_string(),
        status: Some(ShowStatus::Running),
        previousep: None,
        nextep: None,
    };
    assert_eq!(generate_msg(&no_next), "No airdate found for next episode of The Simpsons");
    let ended = ShowData {
        showname: "Star Trek The Next Generation".to_string(),
        status: Some(ShowStatus::Ended),
        previousep: Some(ep(Some("All Good Things..."), Some((1994, 5, 23, -11000)), Some(7), Some(25))),
        nextep: None,
    };
    assert_eq!(
        generate_msg(&ended),
        "Last episode of Star Trek The Next Generation 7x25 'All Good Things...' aired on 1994-05-23, 30 years ago"
    );
    let premiere = ShowData {
        showname: "New".to_string(),
        status: Some(ShowStatus::InDevelopment),
        previousep: None,
        nextep: Some(ep(None, Some((2030, 1, 2, 1)), None, None)),
    };
    assert_eq!(generate_msg(&premiere), "New will premiere on 2030-01-02, tomorrow");
    let unknown = ShowData { showname: "X".to_string(), status: None, previousep: None, nextep: None };
    assert_eq!(generate_msg(&unknown), "Unknown status");
    let yesterday = ShowData {
        showname: "Y".to_string(),
        status: Some(ShowStatus::Ended),
        previousep: Some(ep(None, Some((2020, 12, 31, -1)), None, None)),
        nextep: None,
    };
    assert_eq!(generate_msg(&yesterday), "Y ended on 2020-12-31, yesterday");
}

#[test]
fn feed_outcome_replies() {
    assert_eq!(
        add_feed_reply(&AddFeedOutcome::FetchFailed("https://example.com/rss".to_string())),
        "Error adding feed: Unable to get URL https://example.com/rss"
    );
    assert_eq!(add_feed_reply(&AddFeedOutcome::ParseFailed), "Error adding feed: Unable to parse feed.");
    assert_eq!(
        add_feed_reply(&AddFeedOutcome::Stored("T-botti test feed".to_string())),
        "Successfully added feed T-botti test feed"
    );
    assert_eq!(
        add_feed_reply(&AddFeedOutcome::StoreFailed("F".to_string())),
        "Error adding feed F: Database error"
    );
    assert_eq!(remove_feed_reply(3, RemoveFeedOutcome::Removed), "Removed feed id 3");
    assert_eq!(remove_feed_reply(7, RemoveFeedOutcome::NotInChannel), "Feed 7 does not exists in this channel");
    assert_eq!(remove_feed_reply(7, RemoveFeedOutcome::DatabaseError), "Database error");
}

#[test]
fn weather_place_choice() {
    assert_eq!(weather_location("tampere", Some("helsinki".to_string())), "tampere");
    assert_eq!(weather_location("", Some("helsinki".to_string())), "helsinki");
    assert_eq!(weather_location("", None), "Helsinki");
    assert_eq!(weatherset_reply(true), "Weather location set");
    assert_eq!(weatherset_reply(false), "Database error");
}

fn pod(id: &str, text: &str) -> WaNode {
    WaNode::Pod { id: s(id), text: s(text) }
}

#[test]
fn wolfram_answers() {
    let nodes = vec![pod("Input", "pi"), WaNode::Other, pod("Result", "3.14159 | approx\n")];
    assert_eq!(response_from_nodes(&nodes), "pi = 3.14159: approx |");
    let later_input = vec![pod("Input", "a"), pod("Input information", "b"), pod("Result", "c"), pod("Input", "d")];
    assert_eq!(response_from_nodes(&later_input), "b = c");
    assert_eq!(response_from_nodes(&vec![pod("Result", "42")]), "42");
    let suggestion = vec![WaNode::DidYouMean { text: s("weather") }, pod("Result", "x")];
    assert_eq!(response_from_nodes(&suggestion), "Did you mean: weather");
    let nothing = vec![pod("Input", "q"), WaNode::Pod { id: s("Result"), text: None }];
    assert_eq!(response_from_nodes(&nothing), "Sorry, couldn't understand the question");
    assert_eq!(response_from_nodes(&vec![]), "Sorry, couldn't understand the question");
}

#[test]
fn free_games_now() {
    let offer = |title: Option<&str>, price: Option<u64>, start: Option<i64>, end: Option<i64>| GameOffer {
        title: title.map(|t| t.to_string()),
        discount_price: price,
        start,
        end,
    };
    let games = vec![
        offer(Some("A"), Some(0), Some(100), Some(200)),
        offer(Some("Mystery Game"), Some(0), Some(100), Some(200)),
        offer(Some("B"), Some(1999), Some(100), Some(200)),
        offer(Some("C"), Some(0), Some(160), Some(200)),
        offer(Some("D"), Some(0), None, Some(200)),
        offer(None, Some(0), Some(100), Some(200)),
        offer(Some("E"), Some(0), Some(150), Some(150)),
    ];
    assert_eq!(free_games(&games, 150), vec!["A".to_string(), "E".to_string()]);
    assert!(free_games(&games, 201).is_empty());
}

fn series(id: &str, value: Option<&str>) -> Series {
    Series { id: format!("obs-obs-1-1-{}", id), value: value.map(|v| v.to_string()) }
}

#[test]
fn fmi_series_selection() {
    let list = vec![
        series("t2m", Some("-1.3")),
        series("ws_10min", Some("6.5")),
        series("wg_10min", Some("NaN")),
        series("rh", Some("80.0")),
        series("n_man", Some("8.0")),
        series("wawa", Some("64.0")),
        series("t2m", Some("NaN")),
        series("other", Some("1")),
    ];
    let w = weather_from_series(Some("Helsinki Kaisaniemi".to_string()), &list).unwrap();
    assert_eq!(w.temperature, Some("-1.3".to_string()));
    assert_eq!(w.wind, Some("6.5".to_string()));
    assert_eq!(w.gust, None);
    assert_eq!(w.humidity, Some("80".to_string()));
    assert_eq!(w.cloudiness, Some("8".to_string()));
    assert_eq!(w.wawa, Some("jäätävää heikkoa vesisadetta".to_string()));
    assert_eq!(
        fmi_message(&w),
        "Helsinki Kaisaniemi: lämpötila: -1.3°C, tuulen nopeus: 6.5m/s, ilman kosteus: 80%, pilvisyys: 8/8, jäätävää heikkoa vesisadetta"
    );
    assert_eq!(
        weather_from_series(None, &vec![series("t2m", Some("NaN")), series("wawa", Some("64"))]).err(),
        Some("Tietoja ei löytynyt".to_string())
    );
    assert_eq!(wawa_text(89), Some("raekuuroja".to_string()));
    assert_eq!(wawa_text(0), None);
}

#[test]
fn episode_list_selection() {
    let e = |stamp: Option<i64>, name: Option<&str>| Episode {
        airstamp: stamp,
        data: ep(name, None, Some(1), Some(2)),
    };
    let eps = vec![e(Some(10), Some("a")), e(None, Some("b")), e(Some(30), Some("c")), e(Some(40), None)];
    assert_eq!(next_ep_from_eplist(&eps, 20), Some(2));
    assert_eq!(next_ep_from_eplist(&eps, 35), None);
    assert_eq!(next_ep_from_eplist(&eps, 50), None);
    assert_eq!(last_ep_from_eplist(&eps), Some(3));
    assert_eq!(last_ep_from_eplist(&vec![]), None);
}

#[test]
fn new_feed_entries_are_announced() {
    let feed = FeedInfo {
        id: 1,
        title: "T-botti test feed".to_string(),
        url: "https://example.com/rss".to_string(),
        target: IrcChannel::new("testnetwork", "#testing"),
    };
    let entry = |title: Option<&str>, link: Option<&str>, posted: bool| FeedEntry {
        title: title.map(|t| t.to_string()),
        link: link.map(|l| l.to_string()),
        posted,
    };
    let entries = vec![
        entry(Some("Test entry 01"), Some("https://example.com/testpost01"), false),
        entry(Some("old"), Some("https://example.com/old"), true),
        entry(Some("no link"), None, false),
        entry(None, Some("https://example.com/untitled"), false),
    ];
    let out = announcements(&feed, &entries);
    assert_eq!(out.len(), 2);
    assert_eq!(out[0].target, feed.target);
    assert_eq!(
        out[0].action_type,
        ActionType::Message("[T-botti test feed] Test entry 01 <https://example.com/testpost01>".to_string())
    );
    assert_eq!(
        out[1].action_type,
        ActionType::Message("[T-botti test feed]  <https://example.com/untitled>".to_string())
    );
}

#[test]
fn grid_state_notes() {
    assert_eq!(relaybot::grid::grid_state_text(1), "");
    assert_eq!(
        relaybot::grid::grid_state_text(4),
        " | Sähköjärjestelmän käyttötila: Vakava laajaa osaa tai koko Suomea kattava häiriö."
    );
    assert_eq!(relaybot::grid::grid_state_text(9), " | Sähköjärjestelmän käyttötila: Tuntematon");
}

#[test]
fn voice_people_and_schedule() {
    let clients = vec![
        VoiceClient { client_type: 0, nickname: "alice".to_string() },
        VoiceClient { client_type: 1, nickname: "serveradmin".to_string() },
        VoiceClient { client_type: 0, nickname: "äbc".to_string() },
        VoiceClient { client_type: 0, nickname: "x".to_string() },
    ];
    assert_eq!(people(&clients), vec!["al".to_string(), "ä".to_string(), "x".to_string()]);
    let runs = vec![
        Run { start: Some(10), game: "First".to_string() },
        Run { start: None, game: "Broken".to_string() },
        Run { start: Some(20), game: "Second".to_string() },
        Run { start: Some(30), game: "Third".to_string() },
    ];
    assert_eq!(current_and_next(&runs, 25), ("Second".to_string(), "Third".to_string()));
    assert_eq!(current_and_next(&runs, 5), ("".to_string(), "First".to_string()));
    assert_eq!(current_and_next(&runs, 40), ("Third".to_string(), "".to_string()));
}

#[test]
fn wikipedia_summaries() {
    assert_eq!(summary_text("Taiko are drums.\nThey are loud."), "Taiko are drums. / They are loud.");
    assert_eq!(summary_reply(SummaryOutcome::SearchFailed), "Wikipedia API error");
    assert_eq!(summary_reply(SummaryOutcome::LookupFailed), "API error");
    assert_eq!(summary_reply(SummaryOutcome::Found("x".to_string())), "x");
}

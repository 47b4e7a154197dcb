use sentinel::commands::{destination, modmail_destination, report_destination, Destination};
use sentinel::config::{
    channels_for_guild, config_path, database_path, get_working_dir, parse_u64, startup_plan, working_dir_or_default,
    Channels, Configuration, Tokens,
};
use sentinel::http::{
    command_components_body, reply_to_message_body, request_outcome, respond_components_body, response_route,
    send_plain_body, RequestOutcome, ResponseRoute,
};

fn channels(report: Option<&str>, modmail: Option<&str>) -> Channels {
    Channels {
        channel_report: report.map(|s| s.to_string()),
        channel_mod_msg: modmail.map(|s| s.to_string()),
        channel_appeals: None,
    }
}

fn config() -> Configuration {
    Configuration {
        tokens: Tokens { sentinel: "a".to_string(), factoids: String::new() },
        guilds: vec![
            ("100".to_string(), channels(Some("555"), None)),
            ("200".to_string(), channels(Some("general"), Some("777"))),
            ("100".to_string(), channels(Some("999"), Some("999"))),
        ],
    }
}

#[test]
fn parse_u64_like_std() {
    for s in ["0", "42", "+5", "007", "18446744073709551615", "", "+", "-1", "12a", "18446744073709551616", " 1", "++1"] {
        assert_eq!(parse_u64(s), s.parse::<u64>().ok(), "input {s:?}");
    }
}

#[test]
fn guild_channels_lookup() {
    let c = config();
    assert_eq!(channels_for_guild(&c, 100).unwrap().channel_report.as_deref(), Some("555"));
    assert!(channels_for_guild(&c, 300).is_none());
    assert_eq!(report_destination(&c, 100), Destination::Channel(555));
    assert_eq!(modmail_destination(&c, 100), Destination::NotSetUp);
    assert_eq!(report_destination(&c, 200), Destination::InvalidChannel);
    assert_eq!(modmail_destination(&c, 200), Destination::Channel(777));
    assert_eq!(report_destination(&c, 300), Destination::NotSetUp);
    assert_eq!(destination(Some("+12".to_string())), Destination::Channel(12));
}

#[test]
fn which_bots_start() {
    let p = startup_plan(&Tokens { sentinel: "s".to_string(), factoids: "f".to_string() });
    assert!(p.run_sentinel && p.run_factoids);
    let p = startup_plan(&Tokens { sentinel: "s".to_string(), factoids: String::new() });
    assert!(p.run_sentinel && !p.run_factoids);
    let p = startup_plan(&Tokens { sentinel: String::new(), factoids: "f".to_string() });
    assert!(!p.run_sentinel && !p.run_factoids);
}

#[test]
fn working_directory_and_paths() {
    assert_eq!(working_dir_or_default(None), "./");
    assert_eq!(working_dir_or_default(Some("data/".to_string())), "data/");
    assert_eq!(get_working_dir(&Some("d/".to_string())), Ok("d/".to_string()));
    assert_eq!(get_working_dir(&None), Err("No working directory set.".to_string()));
    assert_eq!(database_path("./"), "./database.sqlite");
    assert_eq!(database_path("data"), "datadatabase.sqlite");
    assert_eq!(config_path("data"), "data/config.toml");
}

#[test]
fn interaction_bodies() {
    assert_eq!(
        send_plain_body("hi", true),
        "{ \"type\": 4, \"data\": { \"flags\": 64, \"content\": \"hi\", \"allowed_mentions\": { \"parse\": [] } } }"
    );
    assert_eq!(
        send_plain_body("hi", false),
        "{ \"type\": 4, \"data\": { \"flags\": 0, \"content\": \"hi\", \"allowed_mentions\": { \"parse\": [] } } }"
    );
    assert_eq!(
        respond_components_body("[]"),
        "{ \"type\": 4, \"data\": { \"flags\": 32768, \"allowed_mentions\": { \"parse\": [] }, \"components\": [] } }"
    );
    assert_eq!(
        reply_to_message_body(123, "[1]"),
        "{ \"flags\": 32768, \"message_reference\": { \"message_id\": \"123\" }, \"components\": [1] }"
    );
    assert_eq!(
        command_components_body("[]"),
        "{ \"flags\": 32832, \"allowed_mentions\": { \"parse\": [] }, \"components\": [] }"
    );
}

#[test]
fn response_routes() {
    assert_eq!(response_route(false, None), Ok(ResponseRoute::InitialResponse));
    assert_eq!(response_route(true, Some(9)), Ok(ResponseRoute::Followup { application_id: 9 }));
    assert_eq!(response_route(true, None), Err("No ApplicationId".to_string()));
}

#[test]
fn request_outcomes() {
    assert_eq!(request_outcome(204), RequestOutcome::Done);
    assert_eq!(request_outcome(200), RequestOutcome::DoneUnexpectedStatus);
    assert_eq!(request_outcome(299), RequestOutcome::DoneUnexpectedStatus);
    assert_eq!(request_outcome(199), RequestOutcome::Failed);
    assert_eq!(request_outcome(404), RequestOutcome::Failed);
}

#[test]
fn parse_reads_back_decimals() {
    for n in [0u64, 9, 10, 99, 100, 1093034213999132743, u64::MAX] {
        assert_eq!(parse_u64(&sentinel::text::decimal_string(n)), Some(n));
    }
}

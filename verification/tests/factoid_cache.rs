use sentinel::factoid_commands::{
    add_rejection, command_description, dispatch_command, edit_modal_for, factoid_add_precheck, factoid_source, factoid_to_update,
    get_factoid_commands, is_valid_factoid_id, is_valid_factoid_name, new_factoid_from_modal,
    factoid_remove_precheck, parse_factoid_create_modal, parse_factoid_edit_modal, prepare_factoid_update, prepare_new_factoid, removed_reply,
    source_reply, CommandType, DispatchAction, FactoidCommandKind, FactoidCreateData,
};
use sentinel::factoids::{
    create_new_factoid, delete_factoid, get_factoid, get_factoid_by_display_name, get_factoids_for_guild,
    is_initialised, is_name_taken, load_from_database, set_initialised, suggest_factoids_for, update_factoid,
    FactoidCache, FactoidData, Initialisation,
};
use sentinel::wrapper::GuildIdWrapper;

const G1: GuildIdWrapper = GuildIdWrapper(1);
const G2: GuildIdWrapper = GuildIdWrapper(2);

fn factoid(id: &str, name: &str, components: &str) -> FactoidData {
    FactoidData {
        display_name: name.to_string(),
        factoid_name: id.to_string(),
        description: None,
        components: components.to_string(),
    }
}

fn filled() -> FactoidCache {
    let mut cache = FactoidCache::new();
    let rows = vec![
        (G1, factoid("paper", "Paper", "[1]")),
        (G1, factoid("velocity", "Velocity", "[2]")),
        (G2, factoid("paper", "Paper Two", "[3]")),
        (G1, factoid("paper", "Paper Again", "[4]")),
    ];
    assert_eq!(load_from_database(&mut cache, Ok(rows)), Ok(()));
    cache
}

#[test]
fn load_keeps_last_row_per_key() {
    let cache = filled();
    assert_eq!(get_factoid(&cache, G1, "paper".to_string()).unwrap().components, "[4]");
    assert_eq!(get_factoid(&cache, G2, "paper".to_string()).unwrap().components, "[3]");
    assert_eq!(get_factoids_for_guild(&cache, G1).len(), 2);
    assert_eq!(get_factoids_for_guild(&cache, G2).len(), 1);
}

#[test]
fn failed_load_leaves_cache_empty() {
    let mut cache = filled();
    assert_eq!(load_from_database(&mut cache, Err("no table".to_string())), Err("no table".to_string()));
    assert!(!is_name_taken(&cache, G1, &"paper".to_string()));
    assert!(get_factoids_for_guild(&cache, G1).is_empty());
}

#[test]
fn create_then_find() {
    let mut cache = FactoidCache::new();
    assert!(!is_name_taken(&cache, G1, &"docs".to_string()));
    assert_eq!(create_new_factoid(&mut cache, G1, factoid("docs", "Docs", "[]"), Ok(())), Ok(()));
    assert!(is_name_taken(&cache, G1, &"docs".to_string()));
    assert!(!is_name_taken(&cache, G2, &"docs".to_string()));
    assert_eq!(get_factoid(&cache, G1, "docs".to_string()).unwrap().display_name, "Docs");
}

#[test]
fn failed_store_changes_nothing() {
    let mut cache = filled();
    assert_eq!(create_new_factoid(&mut cache, G1, factoid("docs", "Docs", "[]"), Err("busy".to_string())), Err("busy".to_string()));
    assert!(!is_name_taken(&cache, G1, &"docs".to_string()));
    assert_eq!(delete_factoid(&mut cache, G1, "paper".to_string(), Err("busy".to_string())), Err("busy".to_string()));
    assert!(is_name_taken(&cache, G1, &"paper".to_string()));
    assert_eq!(
        update_factoid(&mut cache, G1, "paper".to_string(), factoid("pp", "P", "[]"), Err("busy".to_string())),
        Err("busy".to_string())
    );
    assert!(is_name_taken(&cache, G1, &"paper".to_string()));
    assert!(!is_name_taken(&cache, G1, &"pp".to_string()));
}

#[test]
fn delete_then_gone() {
    let mut cache = filled();
    assert_eq!(delete_factoid(&mut cache, G1, "paper".to_string(), Ok(())), Ok(()));
    assert!(get_factoid(&cache, G1, "paper".to_string()).is_none());
    assert!(get_factoid(&cache, G2, "paper".to_string()).is_some());
    assert_eq!(delete_factoid(&mut cache, G1, "missing".to_string(), Ok(())), Ok(()));
    assert_eq!(get_factoids_for_guild(&cache, G1).len(), 1);
}

#[test]
fn update_moves_to_new_id() {
    let mut cache = filled();
    let updated = factoid("paper-mc", "PaperMC", "[9]");
    assert_eq!(update_factoid(&mut cache, G1, "paper".to_string(), updated, Ok(())), Ok(()));
    assert!(get_factoid(&cache, G1, "paper".to_string()).is_none());
    assert_eq!(get_factoid(&cache, G1, "paper-mc".to_string()).unwrap().components, "[9]");
    assert_eq!(get_factoids_for_guild(&cache, G1).len(), 2);
    let same = factoid("velocity", "Velocity!", "[8]");
    assert_eq!(update_factoid(&mut cache, G1, "velocity".to_string(), same, Ok(())), Ok(()));
    assert_eq!(get_factoid(&cache, G1, "velocity".to_string()).unwrap().display_name, "Velocity!");
}

#[test]
fn guild_listing_and_suggestions() {
    let cache = filled();
    let mut names: Vec<String> = get_factoids_for_guild(&cache, G1).into_iter().map(|f| f.factoid_name).collect();
    names.sort();
    assert_eq!(names, vec!["paper".to_string(), "velocity".to_string()]);
    let mut suggested = suggest_factoids_for(&cache, G1);
    suggested.sort();
    assert_eq!(suggested, vec!["paper".to_string(), "velocity".to_string()]);
    assert!(suggest_factoids_for(&cache, GuildIdWrapper(3)).is_empty());
}

#[test]
fn lookup_by_display_name() {
    let cache = filled();
    assert_eq!(get_factoid_by_display_name(&cache, G1, "Velocity".to_string()).unwrap().factoid_name, "velocity");
    assert!(get_factoid_by_display_name(&cache, G1, "Paper Two".to_string()).is_none());
    assert_eq!(get_factoid_by_display_name(&cache, G2, "Paper Two".to_string()).unwrap().components, "[3]");
}

#[test]
fn initialisation_flag() {
    let mut flag = Initialisation::new();
    assert!(!is_initialised(&flag));
    set_initialised(&mut flag, true);
    assert!(is_initialised(&flag));
    set_initialised(&mut flag, false);
    assert!(!is_initialised(&flag));
}

#[test]
fn id_and_name_patterns() {
    assert!(is_valid_factoid_id("paper-mc_2"));
    assert!(!is_valid_factoid_id("Paper"));
    assert!(!is_valid_factoid_id(""));
    assert!(!is_valid_factoid_id("a b"));
    assert!(is_valid_factoid_name("Paper MC 2"));
    assert!(!is_valid_factoid_name("paper-mc"));
    assert!(!is_valid_factoid_name(""));
}

#[test]
fn add_checks_in_order() {
    assert_eq!(
        add_rejection(false, false, true).as_deref(),
        Some("<:no:1500220802841182211> Invalid id. Please only use lower alphanumerical and `-` or `_` characters.")
    );
    assert_eq!(
        add_rejection(true, false, true).as_deref(),
        Some("<:no:1500220802841182211> Invalid name. Please only use alphanumerical characters and ` `.")
    );
    assert_eq!(add_rejection(true, true, true).as_deref(), Some("<:no:1500220802841182211> A factoid with this name already exists."));
    assert_eq!(add_rejection(true, true, false), None);
    let cache = filled();
    assert!(factoid_add_precheck(&cache, G1, &"paper".to_string(), &"Paper".to_string()).is_some());
    assert_eq!(factoid_add_precheck(&cache, G1, &"docs".to_string(), &"Docs".to_string()), None);
    assert!(factoid_add_precheck(&cache, G1, &"Docs".to_string(), &"Docs".to_string()).unwrap().contains("Invalid id"));
    assert!(factoid_add_precheck(&cache, G1, &"docs".to_string(), &"docs!".to_string()).unwrap().contains("Invalid name"));
}

#[test]
fn json_rendering() {
    let f = prepare_factoid_update(Some(factoid("a", "A", "{ \"a\" : [1, 2] }"))).unwrap();
    assert_eq!(f.components, "{\"a\":[1,2]}");
    assert!(prepare_factoid_update(Some(factoid("a", "A", "{ nope"))).is_err());
    let mut cache = FactoidCache::new();
    create_new_factoid(&mut cache, G1, factoid("a", "A", "{\"a\":1}"), Ok(())).unwrap();
    assert_eq!(
        factoid_source(&cache, G1, "a".to_string()),
        Ok("<:yes:1500220801108934786> Components (JSON):\n```json\n{\n  \"a\": 1\n}\n```".to_string())
    );
}

#[test]
fn new_factoid_from_modal_answer() {
    let f = prepare_new_factoid(
        "docs".to_string(),
        "Docs".to_string(),
        Some(FactoidCreateData { components: "[ {\"type\": 10} ]".to_string(), description: Some("d".to_string()) }),
    )
    .unwrap();
    assert_eq!(f.components, "[{\"type\":10}]");
    assert_eq!((f.factoid_name.as_str(), f.display_name.as_str()), ("docs", "Docs"));
    assert_eq!(f.description.as_deref(), Some("d"));
    assert_eq!(
        prepare_new_factoid("docs".to_string(), "Docs".to_string(), None).err().as_deref(),
        Some("<:no:1500220802841182211> Something went wrong.")
    );
    let e = prepare_new_factoid(
        "docs".to_string(),
        "Docs".to_string(),
        Some(FactoidCreateData { components: "[".to_string(), description: None }),
    )
    .unwrap_err();
    assert!(e.starts_with("<:no:1500220802841182211> Failed to parse components JSON: "));
    assert_eq!(
        new_factoid_from_modal("a".to_string(), "A".to_string(), None, Err("bad".to_string())).err().as_deref(),
        Some("<:no:1500220802841182211> Failed to parse components JSON: bad")
    );
}

#[test]
fn modal_fields() {
    let d = parse_factoid_create_modal(Some("[]".to_string()), None);
    assert_eq!(d.components, "[]");
    assert!(d.description.is_none());
    let mut current = factoid("paper", "Paper", "[1]");
    current.description = Some("old".to_string());
    let e = parse_factoid_edit_modal(None, Some("paper2".to_string()), None, None, &current);
    assert_eq!((e.display_name.as_str(), e.factoid_name.as_str(), e.components.as_str()), ("Paper", "paper2", "[1]"));
    assert_eq!(e.description.as_deref(), Some("old"));
    let e = parse_factoid_edit_modal(Some("P".to_string()), None, Some("new".to_string()), Some("[2]".to_string()), &current);
    assert_eq!((e.display_name.as_str(), e.factoid_name.as_str(), e.components.as_str()), ("P", "paper", "[2]"));
    assert_eq!(e.description.as_deref(), Some("new"));
}

#[test]
fn update_steps() {
    let cache = filled();
    assert!(factoid_to_update(&cache, G1, "Paper".to_string()).unwrap_err().contains("Invalid id"));
    assert_eq!(factoid_to_update(&cache, G1, "nope".to_string()).err().as_deref(), Some("<:no:1500220802841182211> No factoid found."));
    assert_eq!(factoid_to_update(&cache, G1, "velocity".to_string()).unwrap().components, "[2]");
    assert_eq!(prepare_factoid_update(None).err().as_deref(), Some("<:no:1500220802841182211> No response sent."));
    let u = prepare_factoid_update(Some(factoid("v", "V", " [ 1 ] "))).unwrap();
    assert_eq!(u.components, "[1]");
}

#[test]
fn remove_check() {
    let cache = filled();
    assert_eq!(factoid_remove_precheck(&cache, G1, &"paper".to_string()), None);
    assert_eq!(
        factoid_remove_precheck(&cache, G1, &"nope".to_string()).as_deref(),
        Some("<:no:1500220802841182211> No factoid found.")
    );
}

#[test]
fn remove_and_source_replies() {
    assert_eq!(removed_reply("docs"), "<:yes:1500220801108934786> Successfully removed `docs`.");
    assert_eq!(source_reply("[]"), "<:yes:1500220801108934786> Components (JSON):\n```json\n[]\n```");
    let cache = filled();
    assert_eq!(
        factoid_source(&cache, G1, "velocity".to_string()),
        Ok("<:yes:1500220801108934786> Components (JSON):\n```json\n[\n  2\n]\n```".to_string())
    );
    assert_eq!(factoid_source(&cache, G1, "nope".to_string()), Ok("<:no:1500220802841182211> No factoid found.".to_string()));
    let mut broken = FactoidCache::new();
    create_new_factoid(&mut broken, G1, factoid("x", "X", "{"), Ok(())).unwrap();
    assert!(factoid_source(&broken, G1, "x".to_string()).is_err());
}

#[test]
fn commands_per_factoid() {
    let mut f = factoid("docs", "Docs", "[]");
    assert_eq!(command_description(&f), "(description not set)");
    f.description = Some("Read them".to_string());
    assert_eq!(command_description(&f), "Read them");
    let cache = filled();
    let cs = get_factoid_commands(&cache, G1);
    assert_eq!(cs.len(), 4);
    for pair in cs.chunks(2) {
        assert_eq!(pair[0].kind, FactoidCommandKind::Slash);
        assert_eq!(pair[1].kind, FactoidCommandKind::MessageContext);
        assert_eq!(pair[0].name, pair[0].factoid.factoid_name);
        assert_eq!(pair[1].name, pair[1].factoid.display_name);
        assert_eq!(pair[0].description, "(description not set)");
    }
}

#[test]
fn command_dispatch() {
    let cache = filled();
    assert!(matches!(dispatch_command(&cache, None, CommandType::ChatInput, "paper".to_string()), DispatchAction::Ignore));
    match dispatch_command(&cache, Some(G1), CommandType::ChatInput, "paper".to_string()) {
        DispatchAction::Respond { components } => assert_eq!(components, "[4]"),
        _ => panic!("expected a response"),
    }
    assert!(matches!(dispatch_command(&cache, Some(G1), CommandType::ChatInput, "nope".to_string()), DispatchAction::Ignore));
    match dispatch_command(&cache, Some(G1), CommandType::Message, "Velocity".to_string()) {
        DispatchAction::ReplyToMessage { components } => assert_eq!(components, "[2]"),
        _ => panic!("expected a reply"),
    }
    assert!(matches!(dispatch_command(&cache, Some(G1), CommandType::Message, "velocity".to_string()), DispatchAction::Ignore));
    assert!(matches!(dispatch_command(&cache, Some(G1), CommandType::User, "paper".to_string()), DispatchAction::Ignore));
}

#[test]
fn delete_undoes_create() {
    let mut cache = filled();
    let before: Vec<String> = {
        let mut v: Vec<String> = get_factoids_for_guild(&cache, G1).into_iter().map(|f| f.factoid_name).collect();
        v.sort();
        v
    };
    create_new_factoid(&mut cache, G1, factoid("fresh", "Fresh", "[]"), Ok(())).unwrap();
    delete_factoid(&mut cache, G1, "fresh".to_string(), Ok(())).unwrap();
    let mut after: Vec<String> = get_factoids_for_guild(&cache, G1).into_iter().map(|f| f.factoid_name).collect();
    after.sort();
    assert_eq!(before, after);
    assert_eq!(get_factoid(&cache, G1, "paper".to_string()).unwrap().components, "[4]");
}

#[test]
fn every_factoid_found_under_its_id() {
    let cache = filled();
    for g in [G1, G2] {
        for f in get_factoids_for_guild(&cache, g) {
            assert!(is_name_taken(&cache, g, &f.factoid_name));
            assert_eq!(get_factoid(&cache, g, f.factoid_name.clone()).unwrap().components, f.components);
        }
    }
}

#[test]
fn edit_modal_shows_current_values() {
    let mut f = factoid("paper", "Paper", "[1]");
    let m = edit_modal_for(&f);
    assert_eq!(m.custom_id, "paper");
    assert_eq!(m.title, "Edit Paper");
    assert_eq!(m.display_placeholder, "Paper");
    assert_eq!(m.id_placeholder, "paper");
    assert!(m.description_placeholder.is_none());
    assert_eq!(m.components_placeholder, "Leave blank for current.");
    f.description = Some("docs".to_string());
    assert_eq!(edit_modal_for(&f).description_placeholder.as_deref(), Some("docs"));
}

#[test]
fn id_and_name_character_sets() {
    for id in ["hello-world", "_", "-", "a1_b-2", "0"] {
        assert!(is_valid_factoid_id(id), "{id:?}");
    }
    for id in ["héllo", "a\n", "a.b", "A", " "] {
        assert!(!is_valid_factoid_id(id), "{id:?}");
    }
    for name in ["A1 b", " ", "Zz 09"] {
        assert!(is_valid_factoid_name(name), "{name:?}");
    }
    for name in ["a_b", "a\n", "ü", "a-b"] {
        assert!(!is_valid_factoid_name(name), "{name:?}");
    }
}

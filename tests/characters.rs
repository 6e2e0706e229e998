use graphql_demos::starwars::{
    Character, Droid, Episode, Human, QueryRoot, StarWars, StarWarsChar,
};

fn person(id: &str, name: &str, human: bool, friends: Vec<usize>) -> StarWarsChar {
    StarWarsChar {
        id: id.to_string(),
        name: name.to_string(),
        is_human: human,
        friends,
        appears_in: vec![Episode::NewHope, Episode::Empire, Episode::Jedi],
        home_planet: if human { Some("Tatooine".to_string()) } else { None },
        primary_function: if human { None } else { Some("Astromech".to_string()) },
    }
}

fn table() -> StarWars {
    StarWars {
        luke: 0,
        artoo: 2,
        chars: vec![
            person("1000", "Luke Skywalker", true, vec![1, 2]),
            person("1002", "Han Solo", true, vec![0]),
            person("2001", "R2-D2", false, vec![0, 1]),
        ],
    }
}

#[test]
fn hero_by_episode() {
    let sw = table();
    assert_eq!(QueryRoot.hero(&sw, Episode::Empire), Character::Human(Human(0)));
    assert_eq!(QueryRoot.hero(&sw, Episode::NewHope), Character::Droid(Droid(2)));
    assert_eq!(QueryRoot.hero(&sw, Episode::Jedi), Character::Droid(Droid(2)));
}

#[test]
fn lookup_by_id_and_kind() {
    let sw = table();
    assert_eq!(QueryRoot.human(&sw, "1000"), Some(Human(0)));
    assert_eq!(QueryRoot.human(&sw, "1002"), Some(Human(1)));
    assert_eq!(QueryRoot.human(&sw, "2001"), None);
    assert_eq!(QueryRoot.droid(&sw, "2001"), Some(Droid(2)));
    assert_eq!(QueryRoot.droid(&sw, "1000"), None);
    assert_eq!(QueryRoot.human(&sw, "9999"), None);
    assert_eq!(sw.humans(), vec![0, 1]);
    assert_eq!(sw.droids(), vec![2]);
}

#[test]
fn character_fields_and_friends() {
    let sw = table();
    let luke = Character::Human(Human(0));
    assert_eq!(luke.id(&sw), "1000");
    assert_eq!(luke.name(&sw), "Luke Skywalker");
    assert_eq!(luke.appears_in(&sw).len(), 3);
    assert_eq!(
        luke.friends(&sw),
        vec![Character::Human(Human(1)), Character::Human(Human(2))]
    );
    let artoo = Droid(2);
    assert_eq!(
        artoo.friends(&sw),
        vec![Character::Droid(Droid(0)), Character::Droid(Droid(1))]
    );
    assert_eq!(artoo.primary_function(&sw).as_deref(), Some("Astromech"));
    assert_eq!(Human(0).home_planet(&sw).as_deref(), Some("Tatooine"));
    assert_eq!(Episode::NewHope.name(), "NEW_HOPE");
    assert_eq!(Episode::Empire.name(), "EMPIRE");
    assert_eq!(Episode::Jedi.name(), "JEDI");
}

#[test]
fn episode_names_read_back() {
    for e in [Episode::NewHope, Episode::Empire, Episode::Jedi] {
        assert_eq!(Episode::from_name(e.name()), Some(e));
    }
    assert_eq!(Episode::from_name("EMPIRE"), Some(Episode::Empire));
    assert_eq!(Episode::from_name("empire"), None);
    assert_eq!(Episode::from_name(""), None);
}

#[test]
fn hero_of_the_whole_saga() {
    let sw = table();
    assert_eq!(QueryRoot.hero_of_saga(&sw, None), Character::Human(Human(0)));
    assert_eq!(QueryRoot.hero_of_saga(&sw, Some(Episode::Empire)), Character::Human(Human(0)));
    assert_eq!(QueryRoot.hero_of_saga(&sw, Some(Episode::Jedi)), Character::Droid(Droid(2)));
}

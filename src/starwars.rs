//! The Star Wars character graph: characters kept in one table and
//! referred to by their index in it, humans and droids alike.

use vstd::prelude::*;

use crate::text::str_eq;

verus! {

/// One of the films in the Star Wars trilogy.
#[derive(PartialEq, Eq, Structural, Copy, Clone, Debug)]
pub enum Episode {
    /// Released in 1977.
    NewHope,
    /// Released in 1980.
    Empire,
    /// Released in 1983.
    Jedi,
}

/// The name of an episode in the schema.
pub open spec fn episode_name(e: Episode) -> Seq<char> {
    match e {
        Episode::NewHope => "NEW_HOPE"@,
        Episode::Empire => "EMPIRE"@,
        Episode::Jedi => "JEDI"@,
    }
}

/// The episode that a schema name stands for, if any.
pub open spec fn episode_named(s: Seq<char>) -> Option<Episode> {
    if s == "NEW_HOPE"@ {
        Some(Episode::NewHope)
    } else if s == "EMPIRE"@ {
        Some(Episode::Empire)
    } else if s == "JEDI"@ {
        Some(Episode::Jedi)
    } else {
        None
    }
}

/// Reading back the name of an episode gives that episode.
pub proof fn lemma_episode_name_round_trip(e: Episode)
    ensures
        episode_named(episode_name(e)) == Some(e),
{
    reveal_strlit("NEW_HOPE");
    reveal_strlit("EMPIRE");
    reveal_strlit("JEDI");
    assert("NEW_HOPE"@[0] != "EMPIRE"@[0]);
    assert("NEW_HOPE"@[0] != "JEDI"@[0]);
    assert("EMPIRE"@[0] != "JEDI"@[0]);
}

impl Episode {
    /// The episode with this schema name, if any.
    pub fn from_name(s: &str) -> (r: Option<Episode>)
        ensures
            r == episode_named(s@),
    {
        if str_eq(s, "NEW_HOPE") {
            Some(Episode::NewHope)
        } else if str_eq(s, "EMPIRE") {
            Some(Episode::Empire)
        } else if str_eq(s, "JEDI") {
            Some(Episode::Jedi)
        } else {
            None
        }
    }

    /// The name of this episode in the schema.
    pub fn name(&self) -> (r: &'static str)
        ensures
            r@ == episode_name(*self),
    {
        match self {
            Episode::NewHope => "NEW_HOPE",
            Episode::Empire => "EMPIRE",
            Episode::Jedi => "JEDI",
        }
    }
}

/// A character: a human, with perhaps a home planet, or a droid, with
/// perhaps a primary function. Friends are indices into the same table.
pub struct StarWarsChar {
    pub id: String,
    pub name: String,
    pub is_human: bool,
    pub friends: Vec<usize>,
    pub appears_in: Vec<Episode>,
    pub home_planet: Option<String>,
    pub primary_function: Option<String>,
}

/// The table of characters, with the index of the hero of the saga's
/// human (Luke) and droid (R2-D2) sides.
pub struct StarWars {
    pub luke: usize,
    pub artoo: usize,
    pub chars: Vec<StarWarsChar>,
}

/// A human, by its index in the table.
#[derive(PartialEq, Eq, Structural, Copy, Clone, Debug)]
pub struct Human(pub usize);

/// A droid, by its index in the table.
#[derive(PartialEq, Eq, Structural, Copy, Clone, Debug)]
pub struct Droid(pub usize);

/// A character as the schema's interface presents it.
#[derive(PartialEq, Eq, Structural, Copy, Clone, Debug)]
pub enum Character {
    Human(Human),
    Droid(Droid),
}

/// The indices, ascending, of the characters of `chars` that are humans
/// (`human`) or droids (`!human`).
pub open spec fn kind_indices(chars: Seq<StarWarsChar>, human: bool) -> Seq<usize>
    decreases chars.len(),
{
    if chars.len() == 0 {
        Seq::empty()
    } else {
        let prev = kind_indices(chars.drop_last(), human);
        if chars.last().is_human == human {
            prev.push((chars.len() - 1) as usize)
        } else {
            prev
        }
    }
}

/// Whether `i` is the first index in `chars` of a character with `id`
/// and of the given kind.
pub open spec fn first_of_kind_with_id(
    chars: Seq<StarWarsChar>,
    id: Seq<char>,
    human: bool,
    i: int,
) -> bool {
    &&& 0 <= i < chars.len()
    &&& chars[i].id@ == id
    &&& chars[i].is_human == human
    &&& forall|j: int|
        0 <= j < i ==> !((#[trigger] chars[j]).id@ == id && chars[j].is_human == human)
}

impl StarWars {
    fn indices_of_kind(&self, human: bool) -> (r: Vec<usize>)
        ensures
            r@ == kind_indices(self.chars@, human),
    {
        let mut out: Vec<usize> = Vec::new();
        let mut i: usize = 0;
        while i < self.chars.len()
            invariant
                i <= self.chars@.len(),
                out@ == kind_indices(self.chars@.subrange(0, i as int), human),
            decreases self.chars@.len() - i,
        {
            assert(self.chars@.subrange(0, i + 1).drop_last() =~= self.chars@.subrange(
                0,
                i as int,
            ));
            if self.chars[i].is_human == human {
                out.push(i);
            }
            i = i + 1;
        }
        assert(self.chars@.subrange(0, i as int) =~= self.chars@);
        out
    }

    /// The indices of the humans, ascending.
    pub fn humans(&self) -> (r: Vec<usize>)
        ensures
            r@ == kind_indices(self.chars@, true),
    {
        self.indices_of_kind(true)
    }

    /// The indices of the droids, ascending.
    pub fn droids(&self) -> (r: Vec<usize>)
        ensures
            r@ == kind_indices(self.chars@, false),
    {
        self.indices_of_kind(false)
    }

    fn find_of_kind(&self, id: &str, human: bool) -> (r: Option<usize>)
        ensures
            r matches Some(i) ==> first_of_kind_with_id(self.chars@, id@, human, i as int),
            r is None ==> forall|j: int|
                0 <= j < self.chars@.len() ==> !((#[trigger] self.chars@[j]).id@ == id@
                    && self.chars@[j].is_human == human),
    {
        let mut i: usize = 0;
        while i < self.chars.len()
            invariant
                i <= self.chars@.len(),
                forall|j: int|
                    0 <= j < i ==> !((#[trigger] self.chars@[j]).id@ == id@
                        && self.chars@[j].is_human == human),
            decreases self.chars@.len() - i,
        {
            if self.chars[i].is_human == human && str_eq(self.chars[i].id.as_str(), id) {
                return Some(i);
            }
            i = i + 1;
        }
        None
    }

    /// The index of the first human with this id, if any.
    pub fn human(&self, id: &str) -> (r: Option<usize>)
        ensures
            r matches Some(i) ==> first_of_kind_with_id(self.chars@, id@, true, i as int),
            r is None ==> forall|j: int|
                0 <= j < self.chars@.len() ==> !((#[trigger] self.chars@[j]).id@ == id@
                    && self.chars@[j].is_human),
    {
        self.find_of_kind(id, true)
    }

    /// The index of the first droid with this id, if any.
    pub fn droid(&self, id: &str) -> (r: Option<usize>)
        ensures
            r matches Some(i) ==> first_of_kind_with_id(self.chars@, id@, false, i as int),
            r is None ==> forall|j: int|
                0 <= j < self.chars@.len() ==> !((#[trigger] self.chars@[j]).id@ == id@
                    && !self.chars@[j].is_human),
    {
        self.find_of_kind(id, false)
    }
}

impl Human {
    /// The home planet of this human, if known.
    pub fn home_planet<'a>(&self, starwars: &'a StarWars) -> (r: &'a Option<String>)
        requires
            self.0 < starwars.chars@.len(),
        ensures
            *r == starwars.chars@[self.0 as int].home_planet,
    {
        &starwars.chars[self.0].home_planet
    }

    /// The friends of this human, each presented as a human.
    pub fn friends(&self, starwars: &StarWars) -> (r: Vec<Character>)
        requires
            self.0 < starwars.chars@.len(),
        ensures
            r@.len() == starwars.chars@[self.0 as int].friends@.len(),
            forall|i: int|
                0 <= i < r@.len() ==> #[trigger] r@[i] == Character::Human(
                    Human(starwars.chars@[self.0 as int].friends@[i]),
                ),
    {
        let friends = &starwars.chars[self.0].friends;
        let mut out: Vec<Character> = Vec::new();
        let mut i: usize = 0;
        while i < friends.len()
            invariant
                i <= friends@.len(),
                out@.len() == i,
                forall|j: int| 0 <= j < i ==> #[trigger] out@[j] == Character::Human(Human(friends@[j])),
            decreases friends@.len() - i,
        {
            out.push(Character::Human(Human(friends[i])));
            i = i + 1;
        }
        out
    }
}

impl Droid {
    /// The primary function of this droid, if known.
    pub fn primary_function<'a>(&self, starwars: &'a StarWars) -> (r: &'a Option<String>)
        requires
            self.0 < starwars.chars@.len(),
        ensures
            *r == starwars.chars@[self.0 as int].primary_function,
    {
        &starwars.chars[self.0].primary_function
    }

    /// The friends of this droid, each presented as a droid.
    pub fn friends(&self, starwars: &StarWars) -> (r: Vec<Character>)
        requires
            self.0 < starwars.chars@.len(),
        ensures
            r@.len() == starwars.chars@[self.0 as int].friends@.len(),
            forall|i: int|
                0 <= i < r@.len() ==> #[trigger] r@[i] == Character::Droid(
                    Droid(starwars.chars@[self.0 as int].friends@[i]),
                ),
    {
        let friends = &starwars.chars[self.0].friends;
        let mut out: Vec<Character> = Vec::new();
        let mut i: usize = 0;
        while i < friends.len()
            invariant
                i <= friends@.len(),
                out@.len() == i,
                forall|j: int| 0 <= j < i ==> #[trigger] out@[j] == Character::Droid(Droid(friends@[j])),
            decreases friends@.len() - i,
        {
            out.push(Character::Droid(Droid(friends[i])));
            i = i + 1;
        }
        out
    }
}

impl Character {
    /// The index of this character in the table.
    pub open spec fn index(&self) -> usize {
        match self {
            Character::Human(h) => h.0,
            Character::Droid(d) => d.0,
        }
    }

    /// The id of this character.
    pub fn id<'a>(&self, starwars: &'a StarWars) -> (r: &'a str)
        requires
            self.index() < starwars.chars@.len(),
        ensures
            r@ == starwars.chars@[self.index() as int].id@,
    {
        let i = match self {
            Character::Human(h) => h.0,
            Character::Droid(d) => d.0,
        };
        starwars.chars[i].id.as_str()
    }

    /// The name of this character.
    pub fn name<'a>(&self, starwars: &'a StarWars) -> (r: &'a str)
        requires
            self.index() < starwars.chars@.len(),
        ensures
            r@ == starwars.chars@[self.index() as int].name@,
    {
        let i = match self {
            Character::Human(h) => h.0,
            Character::Droid(d) => d.0,
        };
        starwars.chars[i].name.as_str()
    }

    /// The episodes that this character appears in.
    pub fn appears_in<'a>(&self, starwars: &'a StarWars) -> (r: &'a [Episode])
        requires
            self.index() < starwars.chars@.len(),
        ensures
            r@ == starwars.chars@[self.index() as int].appears_in@,
    {
        let i = match self {
            Character::Human(h) => h.0,
            Character::Droid(d) => d.0,
        };
        starwars.chars[i].appears_in.as_slice()
    }

    /// The friends of this character, presented as its own kind.
    pub fn friends(&self, starwars: &StarWars) -> (r: Vec<Character>)
        requires
            self.index() < starwars.chars@.len(),
        ensures
            r@.len() == starwars.chars@[self.index() as int].friends@.len(),
            forall|i: int|
                0 <= i < r@.len() ==> #[trigger] r@[i] == (match self {
                    Character::Human(_) => Character::Human(
                        Human(starwars.chars@[self.index() as int].friends@[i]),
                    ),
                    Character::Droid(_) => Character::Droid(
                        Droid(starwars.chars@[self.index() as int].friends@[i]),
                    ),
                }),
    {
        match self {
            Character::Human(h) => h.friends(starwars),
            Character::Droid(d) => d.friends(starwars),
        }
    }
}

/// The queries of the Star Wars schema.
pub struct QueryRoot;

impl QueryRoot {
    /// The hero of an episode: Luke for The Empire Strikes Back, R2-D2
    /// otherwise.
    pub fn hero(&self, starwars: &StarWars, episode: Episode) -> (r: Character)
        ensures
            r == (if episode == Episode::Empire {
                Character::Human(Human(starwars.luke))
            } else {
                Character::Droid(Droid(starwars.artoo))
            }),
    {
        if episode == Episode::Empire {
            Character::Human(Human(starwars.luke))
        } else {
            Character::Droid(Droid(starwars.artoo))
        }
    }

    /// The hero when the episode may be left out: Luke for the whole saga,
    /// else the hero of the episode.
    pub fn hero_of_saga(&self, starwars: &StarWars, episode: Option<Episode>) -> (r: Character)
        ensures
            r == (match episode {
                None => Character::Human(Human(starwars.luke)),
                Some(e) => if e == Episode::Empire {
                    Character::Human(Human(starwars.luke))
                } else {
                    Character::Droid(Droid(starwars.artoo))
                },
            }),
    {
        match episode {
            None => Character::Human(Human(starwars.luke)),
            Some(e) => self.hero(starwars, e),
        }
    }

    /// The human with this id, if any.
    pub fn human(&self, starwars: &StarWars, id: &str) -> (r: Option<Human>)
        ensures
            r matches Some(h) ==> first_of_kind_with_id(starwars.chars@, id@, true, h.0 as int),
            r is None ==> forall|j: int|
                0 <= j < starwars.chars@.len() ==> !((#[trigger] starwars.chars@[j]).id@ == id@
                    && starwars.chars@[j].is_human),
    {
        match starwars.human(id) {
            Some(i) => Some(Human(i)),
            None => None,
        }
    }

    /// The droid with this id, if any.
    pub fn droid(&self, starwars: &StarWars, id: &str) -> (r: Option<Droid>)
        ensures
            r matches Some(d) ==> first_of_kind_with_id(starwars.chars@, id@, false, d.0 as int),
            r is None ==> forall|j: int|
                0 <= j < starwars.chars@.len() ==> !((#[trigger] starwars.chars@[j]).id@ == id@
                    && !starwars.chars@[j].is_human),
    {
        match starwars.droid(id) {
            Some(i) => Some(Droid(i)),
            None => None,
        }
    }
}

} // verus!

//! The item catalogue: what each item is, how far it stacks, and what it does.
//!
//! Quantities that the game shows with a fraction (health, hunger, damage,
//! effect rates and durations) are held in tenths: a `restore_hunger` of 40
//! restores four hunger points, an effect `seconds` of 40 lasts four seconds.

use vstd::prelude::*;
use crate::text::same_text;

verus! {

/// Something a consumable applies over time. All fields are in tenths.
#[derive(Clone, Copy, Debug, PartialEq, Eq, Structural)]
pub enum Effect {
    Regen { per_second: u32, seconds: u32 },
    Speed { multiplier: u32, seconds: u32 },
    Poison { per_second: u32, seconds: u32 },
}

/// The category of an item and the data that category needs (amounts in tenths).
#[derive(Clone, Debug)]
pub enum ItemKind {
    Consumable { restore_health: u32, restore_hunger: u32, effects: Vec<Effect> },
    Weapon { damage: u32 },
    Material,
}

/// One entry of the catalogue.
#[derive(Clone, Debug)]
pub struct ItemDef {
    pub id: &'static str,
    pub name: &'static str,
    pub max_stack: u32,
    pub kind: ItemKind,
}

/// The catalogue, looked up by id. Entered definitions replace earlier ones
/// with the same id, so it behaves as a map from id to definition.
pub struct ItemDb {
    defs: Vec<ItemDef>,
}

/// The map that a list of definitions gives when entered in order.
pub open spec fn catalogue_of(s: Seq<ItemDef>) -> Map<Seq<char>, ItemDef>
    decreases s.len(),
{
    if s.len() == 0 {
        Map::empty()
    } else {
        catalogue_of(s.drop_last()).insert(s.last().id@, s.last())
    }
}

impl View for ItemDb {
    type V = Map<Seq<char>, ItemDef>;

    closed spec fn view(&self) -> Map<Seq<char>, ItemDef> {
        catalogue_of(self.defs@)
    }
}

/// Entries after position `i` that do not carry `id` leave its entry as it was.
proof fn lemma_catalogue_suffix(s: Seq<ItemDef>, i: int, id: Seq<char>)
    requires
        0 <= i <= s.len(),
        forall|k: int| i <= k < s.len() ==> (#[trigger] s[k]).id@ != id,
    ensures
        catalogue_of(s).contains_key(id) == catalogue_of(s.take(i)).contains_key(id),
        catalogue_of(s).contains_key(id) ==> catalogue_of(s)[id] == catalogue_of(s.take(i))[id],
    decreases s.len() - i,
{
    if i == s.len() {
        assert(s.take(i) =~= s);
    } else {
        let t = s.drop_last();
        assert(s.last() == s[s.len() - 1]);
        assert forall|k: int| i <= k < t.len() implies (#[trigger] t[k]).id@ != id by {
            assert(t[k] == s[k]);
        }
        lemma_catalogue_suffix(t, i, id);
        assert(t.take(i) =~= s.take(i));
    }
}

impl ItemDb {
    /// An empty catalogue.
    pub fn new() -> (r: ItemDb)
        ensures
            r@ == Map::<Seq<char>, ItemDef>::empty(),
    {
        ItemDb { defs: Vec::new() }
    }

    /// Enters `def` under its id, replacing any definition with that id.
    pub fn insert(&mut self, def: ItemDef)
        ensures
            final(self)@ == old(self)@.insert(def.id@, def),
    {
        self.defs.push(def);
        assert(self.defs@.drop_last() =~= old(self).defs@);
    }

    /// The definition entered under `id`, if any.
    pub fn get(&self, id: &str) -> (r: Option<&ItemDef>)
        ensures
            match r {
                Some(d) => self@.contains_key(id@) && *d == self@[id@],
                None => !self@.contains_key(id@),
            },
    {
        let mut i = self.defs.len();
        while i > 0
            invariant
                i <= self.defs.len(),
                forall|k: int| i <= k < self.defs@.len() ==> (#[trigger] self.defs@[k]).id@ != id@,
            decreases i,
        {
            if same_text(self.defs[i - 1].id, id) {
                proof {
                    let s = self.defs@;
                    lemma_catalogue_suffix(s, i as int, id@);
                    let t = s.take(i as int);
                    assert(t.drop_last() =~= s.take(i - 1));
                    assert(t.last() == s[i - 1]);
                }
                return Some(&self.defs[i - 1]);
            }
            i = i - 1;
        }
        proof {
            lemma_catalogue_suffix(self.defs@, 0, id@);
            assert(self.defs@.take(0) =~= Seq::<ItemDef>::empty());
        }
        None
    }
}

/// Looking up an id right after entering a definition under it finds that
/// definition; other ids find what they found before.
pub proof fn law_lookup_after_insert(before: &ItemDb, after: &ItemDb, def: ItemDef, id: Seq<char>)
    requires
        after@ == before@.insert(def.id@, def),
    ensures
        id == def.id@ ==> after@.contains_key(id) && after@[id] == def,
        id != def.id@ ==> after@.contains_key(id) == before@.contains_key(id) && after@[id] == before@[id],
{
}

/// `k` is a consumable with exactly these amounts and effects.
pub open spec fn is_consumable(k: ItemKind, health: u32, hunger: u32, effects: Seq<Effect>) -> bool {
    match k {
        ItemKind::Consumable { restore_health, restore_hunger, effects: e } => {
            restore_health == health && restore_hunger == hunger && e@ == effects
        },
        _ => false,
    }
}

/// `k` is a weapon with exactly this damage.
pub open spec fn is_weapon(k: ItemKind, damage: u32) -> bool {
    match k {
        ItemKind::Weapon { damage: d } => d == damage,
        _ => false,
    }
}

/// The catalogue holds an entry under `id` with this id, name and stack limit.
pub open spec fn has_entry(m: Map<Seq<char>, ItemDef>, id: Seq<char>, name: Seq<char>, max_stack: u32) -> bool {
    &&& m.contains_key(id)
    &&& m[id].id@ == id
    &&& m[id].name@ == name
    &&& m[id].max_stack == max_stack
}

/// The game's catalogue, exactly as the contract of [`item_database`] lists it.
pub open spec fn is_game_catalogue(m: Map<Seq<char>, ItemDef>) -> bool {
    &&& m.dom() == set!["apple"@, "cooked_meat"@, "healing_herb"@, "iron_sword"@, "stone"@, "wood"@]
    &&& has_entry(m, "apple"@, "Apple"@, 64)
    &&& is_consumable(m["apple"@].kind, 0, 40, Seq::empty())
    &&& has_entry(m, "cooked_meat"@, "Cooked Meat"@, 64)
    &&& is_consumable(m["cooked_meat"@].kind, 0, 80, Seq::empty())
    &&& has_entry(m, "healing_herb"@, "Healing Herb"@, 16)
    &&& is_consumable(m["healing_herb"@].kind, 60, 0, seq![Effect::Regen { per_second: 10, seconds: 40 }])
    &&& has_entry(m, "iron_sword"@, "Iron Sword"@, 1)
    &&& is_weapon(m["iron_sword"@].kind, 60)
    &&& has_entry(m, "stone"@, "Stone"@, 64)
    &&& m["stone"@].kind is Material
    &&& has_entry(m, "wood"@, "Wood"@, 64)
    &&& m["wood"@].kind is Material
}

/// The master list of items. Adding an item is one entry here.
pub fn item_database() -> (r: ItemDb)
    ensures
        is_game_catalogue(r@),
{
    proof {
        reveal_strlit("apple");
        reveal_strlit("cooked_meat");
        reveal_strlit("healing_herb");
        reveal_strlit("iron_sword");
        reveal_strlit("stone");
        reveal_strlit("wood");
        assert("apple"@[0] == 'a' && "stone"@[0] == 's' && "wood"@[0] == 'w');
        assert("cooked_meat"@[0] == 'c' && "healing_herb"@[0] == 'h' && "iron_sword"@[0] == 'i');
        assert("apple"@ != "stone"@ && "apple"@ != "wood"@ && "stone"@ != "wood"@);
        assert("apple"@ != "cooked_meat"@ && "apple"@ != "healing_herb"@ && "apple"@ != "iron_sword"@);
        assert("cooked_meat"@ != "healing_herb"@ && "cooked_meat"@ != "iron_sword"@);
        assert("cooked_meat"@ != "stone"@ && "cooked_meat"@ != "wood"@);
        assert("healing_herb"@ != "iron_sword"@ && "healing_herb"@ != "stone"@ && "healing_herb"@ != "wood"@);
        assert("iron_sword"@ != "stone"@ && "iron_sword"@ != "wood"@);
    }
    let mut db = ItemDb::new();
    let apple = ItemDef {
        id: "apple",
        name: "Apple",
        max_stack: 64,
        kind: ItemKind::Consumable { restore_health: 0, restore_hunger: 40, effects: Vec::new() },
    };
    let meat = ItemDef {
        id: "cooked_meat",
        name: "Cooked Meat",
        max_stack: 64,
        kind: ItemKind::Consumable { restore_health: 0, restore_hunger: 80, effects: Vec::new() },
    };
    let mut herb_effects: Vec<Effect> = Vec::new();
    herb_effects.push(Effect::Regen { per_second: 10, seconds: 40 });
    assert(herb_effects@ =~= seq![Effect::Regen { per_second: 10, seconds: 40 }]);
    let herb = ItemDef {
        id: "healing_herb",
        name: "Healing Herb",
        max_stack: 16,
        kind: ItemKind::Consumable { restore_health: 60, restore_hunger: 0, effects: herb_effects },
    };
    let sword = ItemDef { id: "iron_sword", name: "Iron Sword", max_stack: 1, kind: ItemKind::Weapon { damage: 60 } };
    let stone = ItemDef { id: "stone", name: "Stone", max_stack: 64, kind: ItemKind::Material };
    let wood = ItemDef { id: "wood", name: "Wood", max_stack: 64, kind: ItemKind::Material };
    let ghost defs = (apple, meat, herb, sword, stone, wood);
    assert(is_consumable(defs.2.kind, 60, 0, seq![Effect::Regen { per_second: 10, seconds: 40 }]));
    db.insert(apple);
    db.insert(meat);
    db.insert(herb);
    db.insert(sword);
    db.insert(stone);
    db.insert(wood);
    assert(db@ == Map::<Seq<char>, ItemDef>::empty().insert("apple"@, defs.0).insert("cooked_meat"@, defs.1)
        .insert("healing_herb"@, defs.2).insert("iron_sword"@, defs.3).insert("stone"@, defs.4)
        .insert("wood"@, defs.5));
    assert(db@.dom() =~= set!["apple"@, "cooked_meat"@, "healing_herb"@, "iron_sword"@, "stone"@, "wood"@]);
    db
}

} // verus!

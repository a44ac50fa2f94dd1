//! Identifiers and names of the goals and rights that permissions are made of,
//! and the lookup tables between them.
use std::collections::HashMap;
use vstd::prelude::*;

verus! {

broadcast use {vstd::std_specs::hash::group_hash_axioms, vstd::string::group_string_axioms};

// Goal names.
pub const STATS_GOAL_NAME: &'static str = "stats";
pub const DASHBOARDS_GOAL_NAME: &'static str = "dashboards";
pub const USERS_GOAL_NAME: &'static str = "users";
pub const ROLES_GOAL_NAME: &'static str = "roles";
pub const TABLES_GOAL_NAME: &'static str = "tables";
pub const RESOURCES_GOAL_NAME: &'static str = "resources";
pub const TASKS_GOAL_NAME: &'static str = "tasks";
pub const NAV_GOAL_NAME: &'static str = "nav_data";
pub const USER_PASS_GOAL_NAME: &'static str = "user_pass";
pub const ADMIN_GOAL_NAME: &'static str = "admin";
pub const REVIEWS_GOAL_NAME: &'static str = "reviews";

// Goal identifiers.
pub const STATS_GOAL_ID: i32 = 1;
pub const DASHBOARDS_GOAL_ID: i32 = 2;
pub const USERS_GOAL_ID: i32 = 3;
pub const ROLES_GOAL_ID: i32 = 4;
pub const TABLES_GOAL_ID: i32 = 5;
pub const RESOURCES_GOAL_ID: i32 = 6;
pub const TASKS_GOAL_ID: i32 = 7;
pub const NAV_GOAL_ID: i32 = 8;
pub const USER_PASS_GOAL_ID: i32 = 9;
pub const ADMIN_GOAL_ID: i32 = 10;
pub const REVIEWS_GOAL_ID: i32 = 11;

// Right names.
pub const VIEW_RIGHT_NAME: &'static str = "view";
pub const CREATE_RIGHT_NAME: &'static str = "create";
pub const EDIT_RIGHT_NAME: &'static str = "edit";
pub const DELETE_RIGHT_NAME: &'static str = "delete";
pub const GRANT_RIGHT_NAME: &'static str = "grant";

// Right identifiers.
pub const VIEW_RIGHT_ID: i32 = 1;
pub const CREATE_RIGHT_ID: i32 = 2;
pub const EDIT_RIGHT_ID: i32 = 3;
pub const DELETE_RIGHT_ID: i32 = 4;
pub const GRANT_RIGHT_ID: i32 = 5;

/// The name that the goal table gives to a goal identifier. The reviews goal
/// has an identifier and a name but no entry in the table.
pub open spec fn spec_goal_name(id: i32) -> Option<Seq<char>> {
    if id == STATS_GOAL_ID {
        Some(STATS_GOAL_NAME@)
    } else if id == DASHBOARDS_GOAL_ID {
        Some(DASHBOARDS_GOAL_NAME@)
    } else if id == USERS_GOAL_ID {
        Some(USERS_GOAL_NAME@)
    } else if id == ROLES_GOAL_ID {
        Some(ROLES_GOAL_NAME@)
    } else if id == TABLES_GOAL_ID {
        Some(TABLES_GOAL_NAME@)
    } else if id == RESOURCES_GOAL_ID {
        Some(RESOURCES_GOAL_NAME@)
    } else if id == TASKS_GOAL_ID {
        Some(TASKS_GOAL_NAME@)
    } else if id == NAV_GOAL_ID {
        Some(NAV_GOAL_NAME@)
    } else if id == USER_PASS_GOAL_ID {
        Some(USER_PASS_GOAL_NAME@)
    } else if id == ADMIN_GOAL_ID {
        Some(ADMIN_GOAL_NAME@)
    } else {
        None
    }
}

/// The goal identifier that the goal table gives to a name.
pub open spec fn spec_goal_id(name: Seq<char>) -> Option<i32> {
    if name == STATS_GOAL_NAME@ {
        Some(STATS_GOAL_ID)
    } else if name == DASHBOARDS_GOAL_NAME@ {
        Some(DASHBOARDS_GOAL_ID)
    } else if name == USERS_GOAL_NAME@ {
        Some(USERS_GOAL_ID)
    } else if name == ROLES_GOAL_NAME@ {
        Some(ROLES_GOAL_ID)
    } else if name == TABLES_GOAL_NAME@ {
        Some(TABLES_GOAL_ID)
    } else if name == RESOURCES_GOAL_NAME@ {
        Some(RESOURCES_GOAL_ID)
    } else if name == TASKS_GOAL_NAME@ {
        Some(TASKS_GOAL_ID)
    } else if name == NAV_GOAL_NAME@ {
        Some(NAV_GOAL_ID)
    } else if name == USER_PASS_GOAL_NAME@ {
        Some(USER_PASS_GOAL_ID)
    } else if name == ADMIN_GOAL_NAME@ {
        Some(ADMIN_GOAL_ID)
    } else {
        None
    }
}

/// The name that the right table gives to a right identifier.
pub open spec fn spec_right_name(id: i32) -> Option<Seq<char>> {
    if id == VIEW_RIGHT_ID {
        Some(VIEW_RIGHT_NAME@)
    } else if id == CREATE_RIGHT_ID {
        Some(CREATE_RIGHT_NAME@)
    } else if id == EDIT_RIGHT_ID {
        Some(EDIT_RIGHT_NAME@)
    } else if id == DELETE_RIGHT_ID {
        Some(DELETE_RIGHT_NAME@)
    } else if id == GRANT_RIGHT_ID {
        Some(GRANT_RIGHT_NAME@)
    } else {
        None
    }
}

/// The right identifier that the right table gives to a name.
pub open spec fn spec_right_id(name: Seq<char>) -> Option<i32> {
    if name == VIEW_RIGHT_NAME@ {
        Some(VIEW_RIGHT_ID)
    } else if name == CREATE_RIGHT_NAME@ {
        Some(CREATE_RIGHT_ID)
    } else if name == EDIT_RIGHT_NAME@ {
        Some(EDIT_RIGHT_ID)
    } else if name == DELETE_RIGHT_NAME@ {
        Some(DELETE_RIGHT_ID)
    } else if name == GRANT_RIGHT_NAME@ {
        Some(GRANT_RIGHT_ID)
    } else {
        None
    }
}

/// Lookup in a list of (name, value) entries where a later entry for a name
/// hides an earlier one, as repeated insertions into a map do.
pub open spec fn lookup_last(entries: Seq<(Seq<char>, i32)>, name: Seq<char>) -> Option<i32>
    decreases entries.len(),
{
    if entries.len() == 0 {
        None
    } else if entries.last().0 == name {
        Some(entries.last().1)
    } else {
        lookup_last(entries.drop_last(), name)
    }
}

/// A table from names to identifiers.
pub struct NameTable {
    entries: Vec<(String, i32)>,
}

impl NameTable {
    /// The entries of the table, names taken by their characters.
    pub closed spec fn spec_entries(&self) -> Seq<(Seq<char>, i32)> {
        self.entries@.map_values(|e: (String, i32)| (e.0@, e.1))
    }

    /// The identifier that the table gives to a name, if any.
    pub open spec fn spec_get(&self, name: Seq<char>) -> Option<i32> {
        lookup_last(self.spec_entries(), name)
    }

    fn empty() -> (t: NameTable)
        ensures
            t.spec_entries() == Seq::<(Seq<char>, i32)>::empty(),
    {
        let t = NameTable { entries: Vec::new() };
        assert(t.spec_entries() =~= Seq::<(Seq<char>, i32)>::empty());
        t
    }

    fn insert(&mut self, name: &str, id: i32)
        ensures
            final(self).spec_entries() == old(self).spec_entries().push((name@, id)),
    {
        self.entries.push((name.to_owned(), id));
        assert(self.spec_entries() =~= old(self).spec_entries().push((name@, id)));
    }

    /// Whether no name is listed twice, so that each entry is one name of the
    /// table.
    pub open spec fn names_distinct(&self) -> bool {
        forall|i: int, j: int|
            0 <= i < j < self.spec_entries().len() ==> #[trigger] self.spec_entries()[i].0
                != #[trigger] self.spec_entries()[j].0
    }

    /// Looks a name up.
    pub fn get(&self, name: &str) -> (r: Option<i32>)
        ensures
            r == self.spec_get(name@),
    {
        let key = name.to_owned();
        let ghost es = self.spec_entries();
        let mut i = self.entries.len();
        assert(es.take(i as int) =~= es);
        while i > 0
            invariant
                i <= self.entries.len(),
                es == self.spec_entries(),
                es.len() == self.entries.len(),
                key@ == name@,
                lookup_last(es, name@) == lookup_last(es.take(i as int), name@),
            decreases i,
        {
            i = i - 1;
            assert(es.take((i + 1) as int).drop_last() =~= es.take(i as int));
            assert(es.take((i + 1) as int).last() == es[i as int]);
            if self.entries[i].0 == key {
                return Some(self.entries[i].1);
            }
        }
        None
    }
}

/// Table from goal identifiers to goal names.
pub fn get_goal_by_id() -> (res: HashMap<i32, String>)
    ensures
        forall|id: i32| #[trigger] res@.contains_key(id) <==> spec_goal_name(id) is Some,
        forall|id: i32| #[trigger] res@.contains_key(id) ==> res@[id]@ == spec_goal_name(id)->0,
        res@.len() == 10,
{
    let mut map: HashMap<i32, String> = HashMap::new();
    map.insert(STATS_GOAL_ID, STATS_GOAL_NAME.to_owned());
    map.insert(DASHBOARDS_GOAL_ID, DASHBOARDS_GOAL_NAME.to_owned());
    map.insert(USERS_GOAL_ID, USERS_GOAL_NAME.to_owned());
    map.insert(ROLES_GOAL_ID, ROLES_GOAL_NAME.to_owned());
    map.insert(TABLES_GOAL_ID, TABLES_GOAL_NAME.to_owned());
    map.insert(RESOURCES_GOAL_ID, RESOURCES_GOAL_NAME.to_owned());
    map.insert(TASKS_GOAL_ID, TASKS_GOAL_NAME.to_owned());
    map.insert(NAV_GOAL_ID, NAV_GOAL_NAME.to_owned());
    map.insert(USER_PASS_GOAL_ID, USER_PASS_GOAL_NAME.to_owned());
    map.insert(ADMIN_GOAL_ID, ADMIN_GOAL_NAME.to_owned());
    map.insert(RESOURCES_GOAL_ID, RESOURCES_GOAL_NAME.to_owned());
    map
}

/// Table from right identifiers to right names.
pub fn get_right_by_id() -> (res: HashMap<i32, String>)
    ensures
        forall|id: i32| #[trigger] res@.contains_key(id) <==> spec_right_name(id) is Some,
        forall|id: i32| #[trigger] res@.contains_key(id) ==> res@[id]@ == spec_right_name(id)->0,
        res@.len() == 5,
{
    let mut map: HashMap<i32, String> = HashMap::new();
    map.insert(VIEW_RIGHT_ID, VIEW_RIGHT_NAME.to_owned());
    map.insert(CREATE_RIGHT_ID, CREATE_RIGHT_NAME.to_owned());
    map.insert(EDIT_RIGHT_ID, EDIT_RIGHT_NAME.to_owned());
    map.insert(DELETE_RIGHT_ID, DELETE_RIGHT_NAME.to_owned());
    map.insert(GRANT_RIGHT_ID, GRANT_RIGHT_NAME.to_owned());
    map
}

/// Facts about the characters of the goal names that tell them apart.
proof fn lemma_goal_name_chars()
    ensures
        STATS_GOAL_NAME@.len() == 5 && STATS_GOAL_NAME@[0] == 's',
        DASHBOARDS_GOAL_NAME@.len() == 10,
        USERS_GOAL_NAME@.len() == 5 && USERS_GOAL_NAME@[0] == 'u',
        ROLES_GOAL_NAME@.len() == 5 && ROLES_GOAL_NAME@[0] == 'r',
        TABLES_GOAL_NAME@.len() == 6,
        RESOURCES_GOAL_NAME@.len() == 9 && RESOURCES_GOAL_NAME@[0] == 'r',
        TASKS_GOAL_NAME@.len() == 5 && TASKS_GOAL_NAME@[0] == 't',
        NAV_GOAL_NAME@.len() == 8,
        USER_PASS_GOAL_NAME@.len() == 9 && USER_PASS_GOAL_NAME@[0] == 'u',
        ADMIN_GOAL_NAME@.len() == 5 && ADMIN_GOAL_NAME@[0] == 'a',
        REVIEWS_GOAL_NAME@.len() == 7,
{
    reveal_strlit("stats");
    reveal_strlit("dashboards");
    reveal_strlit("users");
    reveal_strlit("roles");
    reveal_strlit("tables");
    reveal_strlit("resources");
    reveal_strlit("tasks");
    reveal_strlit("nav_data");
    reveal_strlit("user_pass");
    reveal_strlit("admin");
    reveal_strlit("reviews");
}

/// Facts about the characters of the right names that tell them apart.
proof fn lemma_right_name_chars()
    ensures
        VIEW_RIGHT_NAME@.len() == 4 && VIEW_RIGHT_NAME@[0] == 'v',
        CREATE_RIGHT_NAME@.len() == 6 && CREATE_RIGHT_NAME@[0] == 'c',
        EDIT_RIGHT_NAME@.len() == 4 && EDIT_RIGHT_NAME@[0] == 'e',
        DELETE_RIGHT_NAME@.len() == 6 && DELETE_RIGHT_NAME@[0] == 'd',
        GRANT_RIGHT_NAME@.len() == 5,
{
    reveal_strlit("view");
    reveal_strlit("create");
    reveal_strlit("edit");
    reveal_strlit("delete");
    reveal_strlit("grant");
}

/// Table from goal names to goal identifiers: the goal table read backwards.
pub fn get_goal_by_name() -> (res: NameTable)
    ensures
        forall|name: Seq<char>| #[trigger] res.spec_get(name) == spec_goal_id(name),
        res.names_distinct(),
        res.spec_entries().len() == 10,
{
    let mut t = NameTable::empty();
    t.insert(STATS_GOAL_NAME, STATS_GOAL_ID);
    t.insert(DASHBOARDS_GOAL_NAME, DASHBOARDS_GOAL_ID);
    t.insert(USERS_GOAL_NAME, USERS_GOAL_ID);
    t.insert(ROLES_GOAL_NAME, ROLES_GOAL_ID);
    t.insert(TABLES_GOAL_NAME, TABLES_GOAL_ID);
    t.insert(RESOURCES_GOAL_NAME, RESOURCES_GOAL_ID);
    t.insert(TASKS_GOAL_NAME, TASKS_GOAL_ID);
    t.insert(NAV_GOAL_NAME, NAV_GOAL_ID);
    t.insert(USER_PASS_GOAL_NAME, USER_PASS_GOAL_ID);
    t.insert(ADMIN_GOAL_NAME, ADMIN_GOAL_ID);
    proof {
        lemma_goal_name_chars();
        reveal_with_fuel(lookup_last, 11);
    }
    t
}

/// Table from right names to right identifiers: the right table read backwards.
pub fn get_right_by_name() -> (res: NameTable)
    ensures
        forall|name: Seq<char>| #[trigger] res.spec_get(name) == spec_right_id(name),
        res.names_distinct(),
        res.spec_entries().len() == 5,
{
    let mut t = NameTable::empty();
    t.insert(VIEW_RIGHT_NAME, VIEW_RIGHT_ID);
    t.insert(CREATE_RIGHT_NAME, CREATE_RIGHT_ID);
    t.insert(EDIT_RIGHT_NAME, EDIT_RIGHT_ID);
    t.insert(DELETE_RIGHT_NAME, DELETE_RIGHT_ID);
    t.insert(GRANT_RIGHT_NAME, GRANT_RIGHT_ID);
    proof {
        lemma_right_name_chars();
        reveal_with_fuel(lookup_last, 6);
    }
    t
}

/// The goal tables are inverse to each other: a goal identifier has a name
/// exactly when that name has the identifier.
pub proof fn lemma_goal_tables_inverse(id: i32, name: Seq<char>)
    ensures
        spec_goal_name(id) == Some(name) <==> spec_goal_id(name) == Some(id),
{
    lemma_goal_name_chars();
}

/// The right tables are inverse to each other.
pub proof fn lemma_right_tables_inverse(id: i32, name: Seq<char>)
    ensures
        spec_right_name(id) == Some(name) <==> spec_right_id(name) == Some(id),
{
    lemma_right_name_chars();
}

/// Distinct right names never share a right identifier.
pub proof fn lemma_right_id_injective(a: Seq<char>, b: Seq<char>)
    requires
        spec_right_id(a) is Some,
        spec_right_id(a) == spec_right_id(b),
    ensures
        a == b,
{
}

/// The goal table: each goal name has its own identifier, as the goals are
/// numbered in the database ("stats" 1, "dashboards" 2, "users" 3, "roles" 4,
/// "tables" 5, "resources" 6, "tasks" 7, "nav_data" 8, "user_pass" 9,
/// "admin" 10), in both directions; "reviews" has no entry.
pub proof fn lemma_goal_table_values()
    ensures
        spec_goal_id("stats"@) == Some(1i32),
        spec_goal_id("dashboards"@) == Some(2i32),
        spec_goal_id("users"@) == Some(3i32),
        spec_goal_id("roles"@) == Some(4i32),
        spec_goal_id("tables"@) == Some(5i32),
        spec_goal_id("resources"@) == Some(6i32),
        spec_goal_id("tasks"@) == Some(7i32),
        spec_goal_id("nav_data"@) == Some(8i32),
        spec_goal_id("user_pass"@) == Some(9i32),
        spec_goal_id("admin"@) == Some(10i32),
        spec_goal_id("reviews"@) is None,
        spec_goal_name(1) == Some("stats"@),
        spec_goal_name(2) == Some("dashboards"@),
        spec_goal_name(3) == Some("users"@),
        spec_goal_name(4) == Some("roles"@),
        spec_goal_name(5) == Some("tables"@),
        spec_goal_name(6) == Some("resources"@),
        spec_goal_name(7) == Some("tasks"@),
        spec_goal_name(8) == Some("nav_data"@),
        spec_goal_name(9) == Some("user_pass"@),
        spec_goal_name(10) == Some("admin"@),
        spec_goal_name(11) is None,
        STATS_GOAL_ID == 1 && DASHBOARDS_GOAL_ID == 2 && USERS_GOAL_ID == 3 && ROLES_GOAL_ID == 4
            && TABLES_GOAL_ID == 5 && RESOURCES_GOAL_ID == 6 && TASKS_GOAL_ID == 7 && NAV_GOAL_ID
            == 8 && USER_PASS_GOAL_ID == 9 && ADMIN_GOAL_ID == 10 && REVIEWS_GOAL_ID == 11,
{
    lemma_goal_name_chars();
}

/// The right table: "view" 1, "create" 2, "edit" 3, "delete" 4, "grant" 5,
/// in both directions; no other name is a right.
pub proof fn lemma_right_table_values()
    ensures
        spec_right_id("view"@) == Some(1i32),
        spec_right_id("create"@) == Some(2i32),
        spec_right_id("edit"@) == Some(3i32),
        spec_right_id("delete"@) == Some(4i32),
        spec_right_id("grant"@) == Some(5i32),
        spec_right_id("update"@) is None,
        spec_right_name(1) == Some("view"@),
        spec_right_name(2) == Some("create"@),
        spec_right_name(3) == Some("edit"@),
        spec_right_name(4) == Some("delete"@),
        spec_right_name(5) == Some("grant"@),
        spec_right_name(6) is None,
        VIEW_RIGHT_ID == 1 && CREATE_RIGHT_ID == 2 && EDIT_RIGHT_ID == 3 && DELETE_RIGHT_ID == 4
            && GRANT_RIGHT_ID == 5,
{
    lemma_right_name_chars();
    reveal_strlit("update");
}

} // verus!

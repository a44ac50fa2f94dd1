//! Permissions: which rights a user holds on which goals, and the checks made
//! against them.
use crate::common::constants::{get_goal_by_name, get_right_by_name, spec_goal_id, spec_right_id};
use crate::common::errors::LocoError;
use crate::common::text::{append_int, int_text};
use vstd::prelude::*;

verus! {

broadcast use {vstd::seq_lib::group_seq_properties, vstd::set_lib::group_set_properties};

/// One right on one goal.
#[derive(Clone, Copy, Debug, PartialEq, Eq, Structural, Hash, PartialOrd, Ord)]
pub struct GoalRight {
    pub goal_id: i32,
    pub right_id: i32,
}

/// A finite set of rights on goals.
pub struct RightSet {
    items: Vec<GoalRight>,
}

impl View for RightSet {
    type V = Set<GoalRight>;

    closed spec fn view(&self) -> Set<GoalRight> {
        self.items@.to_set()
    }
}

impl RightSet {
    #[verifier::type_invariant]
    spec fn inv(self) -> bool {
        self.items@.no_duplicates()
    }

    /// The empty set.
    pub fn new() -> (r: RightSet)
        ensures
            r@ == Set::<GoalRight>::empty(),
    {
        let r = RightSet { items: Vec::new() };
        assert(r.items@.to_set() =~= Set::<GoalRight>::empty());
        r
    }

    /// Whether the set holds a right.
    pub fn contains(&self, x: GoalRight) -> (r: bool)
        ensures
            r == self@.contains(x),
    {
        let mut i: usize = 0;
        while i < self.items.len()
            invariant
                i <= self.items.len(),
                forall|j: int| 0 <= j < i ==> self.items@[j] != x,
            decreases self.items.len() - i,
        {
            if self.items[i] == x {
                assert(self.items@.contains(x));
                return true;
            }
            i = i + 1;
        }
        assert(!self.items@.contains(x));
        false
    }

    /// Adds a right; answers whether it was new to the set.
    pub fn insert(&mut self, x: GoalRight) -> (r: bool)
        ensures
            final(self)@ == old(self)@.insert(x),
            r == !old(self)@.contains(x),
    {
        if self.contains(x) {
            assert(self@.insert(x) =~= self@);
            false
        } else {
            proof {
                use_type_invariant(&*self);
            }
            let mut items = Vec::new();
            std::mem::swap(&mut items, &mut self.items);
            items.push(x);
            assert(items@.no_duplicates());
            assert(items@.to_set() =~= old(self)@.insert(x));
            self.items = items;
            true
        }
    }

    /// The number of rights in the set.
    pub fn len(&self) -> (r: usize)
        ensures
            r == self@.len(),
            self@.finite(),
    {
        proof {
            use_type_invariant(self);
            self.items@.unique_seq_to_set();
        }
        self.items.len()
    }

    /// Whether every right of this set is in `other`.
    pub fn is_subset(&self, other: &RightSet) -> (r: bool)
        ensures
            r == self@.subset_of(other@),
    {
        let mut i: usize = 0;
        while i < self.items.len()
            invariant
                i <= self.items.len(),
                forall|j: int| 0 <= j < i ==> other@.contains(#[trigger] self.items@[j]),
            decreases self.items.len() - i,
        {
            if !other.contains(self.items[i]) {
                assert(self.items@.contains(self.items@[i as int]));
                return false;
            }
            i = i + 1;
        }
        assert forall|x: GoalRight| self@.contains(x) implies other@.contains(x) by {
            let k = choose|k: int| 0 <= k < self.items@.len() && self.items@[k] == x;
        }
        true
    }

    /// The set of the rights in a list.
    pub fn from_vec(v: Vec<GoalRight>) -> (r: RightSet)
        ensures
            r@ == v@.to_set(),
    {
        let mut r = RightSet::new();
        let mut i: usize = 0;
        while i < v.len()
            invariant
                i <= v.len(),
                r@ == v@.take(i as int).to_set(),
            decreases v.len() - i,
        {
            r.insert(v[i]);
            assert(v@.take(i + 1) =~= v@.take(i as int).push(v@[i as int]));
            i = i + 1;
        }
        assert(v@.take(v.len() as int) =~= v@);
        r
    }

    /// The rights of the set, each once, in no particular order.
    pub fn to_vec(&self) -> (r: Vec<GoalRight>)
        ensures
            r@.to_set() == self@,
            r@.no_duplicates(),
    {
        proof {
            use_type_invariant(self);
        }
        self.items.clone()
    }
}

/// The rights that a request is made with.
pub struct RequestPermissions {
    pub user_id: i64,
    pub rights: RightSet,
}

impl RequestPermissions {
    pub fn new(user_id: i64, rights: RightSet) -> (r: RequestPermissions)
        ensures
            r.user_id == user_id,
            r.rights@ == rights@,
    {
        RequestPermissions { user_id, rights }
    }

    /// Whether the request holds one right on one goal.
    pub fn has(&self, goal_id: i32, right_id: i32) -> (r: bool)
        ensures
            r == self.rights@.contains(GoalRight { goal_id, right_id }),
    {
        self.rights.contains(GoalRight { goal_id, right_id })
    }

    /// Whether the request holds every one of the listed rights on a goal
    /// (an empty list is always held).
    pub fn has_any(&self, goal_id: i32, right_ids: &[i32]) -> (r: bool)
        ensures
            r == forall|i: int|
                0 <= i < right_ids@.len() ==> self.rights@.contains(
                    GoalRight { goal_id, right_id: #[trigger] right_ids@[i] },
                ),
    {
        let mut set = RightSet::new();
        let mut i: usize = 0;
        while i < right_ids.len()
            invariant
                i <= right_ids.len(),
                forall|g: GoalRight|
                    set@.contains(g) <==> exists|j: int|
                        0 <= j < i && g == (GoalRight { goal_id, right_id: #[trigger] right_ids@[j] }),
            decreases right_ids.len() - i,
        {
            set.insert(GoalRight { goal_id, right_id: right_ids[i] });
            i = i + 1;
        }
        let r = set.is_subset(&self.rights);
        proof {
            if r {
                assert forall|k: int| 0 <= k < right_ids@.len() implies self.rights@.contains(
                    GoalRight { goal_id, right_id: #[trigger] right_ids@[k] },
                ) by {
                    assert(set@.contains(GoalRight { goal_id, right_id: right_ids@[k] }));
                }
            } else {
                let g = choose|g: GoalRight| set@.contains(g) && !self.rights@.contains(g);
                assert(set@.contains(g));
            }
        }
        r
    }
}

/// Whether every action name is known to the right table.
pub open spec fn all_rights_known(actions: Seq<Seq<char>>) -> bool {
    forall|i: int| 0 <= i < actions.len() ==> #[trigger] spec_right_id(actions[i]) is Some
}

/// The rights on a goal that a list of action names asks for (names that are
/// not known ask for nothing).
pub open spec fn spec_required(goal_id: i32, actions: Seq<Seq<char>>) -> Set<GoalRight> {
    Set::new(
        |g: GoalRight|
            exists|i: int|
                0 <= i < actions.len() && #[trigger] spec_right_id(actions[i]) is Some && g == (
                GoalRight { goal_id, right_id: spec_right_id(actions[i])->0 }),
    )
}

/// A permission check can be made on a resource and list of actions when the
/// resource names a goal and every action names a right.
pub open spec fn check_is_defined(resource: Seq<char>, actions: Seq<Seq<char>>) -> bool {
    &&& spec_goal_id(resource) is Some
    &&& all_rights_known(actions)
}

pub open spec fn names_of(actions: Seq<&str>) -> Seq<Seq<char>> {
    actions.map_values(|a: &str| a@)
}

proof fn lemma_required_step_unknown(goal_id: i32, prefix: Seq<Seq<char>>, n: Seq<char>)
    requires
        spec_right_id(n) is None,
    ensures
        spec_required(goal_id, prefix.push(n)) == spec_required(goal_id, prefix),
        !all_rights_known(prefix.push(n)),
{
    let next = prefix.push(n);
    assert(next[prefix.len() as int] == n);
    assert forall|g: GoalRight| spec_required(goal_id, next).contains(g) implies spec_required(
        goal_id,
        prefix,
    ).contains(g) by {
        let k = choose|k: int|
            0 <= k < next.len() && #[trigger] spec_right_id(next[k]) is Some && g == (GoalRight {
                goal_id,
                right_id: spec_right_id(next[k])->0,
            });
        assert(prefix[k] == next[k]);
    }
    assert forall|g: GoalRight| spec_required(goal_id, prefix).contains(g) implies spec_required(
        goal_id,
        next,
    ).contains(g) by {
        let k = choose|k: int|
            0 <= k < prefix.len() && #[trigger] spec_right_id(prefix[k]) is Some && g == (
            GoalRight { goal_id, right_id: spec_right_id(prefix[k])->0 });
        assert(prefix[k] == next[k]);
    }
    assert(spec_required(goal_id, prefix.push(n)) =~= spec_required(goal_id, prefix));
}

proof fn lemma_required_step_known(goal_id: i32, prefix: Seq<Seq<char>>, n: Seq<char>)
    requires
        spec_right_id(n) is Some,
    ensures
        spec_required(goal_id, prefix.push(n)) == spec_required(goal_id, prefix).insert(
            GoalRight { goal_id, right_id: spec_right_id(n)->0 },
        ),
        all_rights_known(prefix.push(n)) <==> all_rights_known(prefix),
{
    let next = prefix.push(n);
    let g0 = GoalRight { goal_id, right_id: spec_right_id(n)->0 };
    assert(next[prefix.len() as int] == n);
    assert forall|g: GoalRight| spec_required(goal_id, next).contains(g) implies spec_required(
        goal_id,
        prefix,
    ).insert(g0).contains(g) by {
        let k = choose|k: int|
            0 <= k < next.len() && #[trigger] spec_right_id(next[k]) is Some && g == (GoalRight {
                goal_id,
                right_id: spec_right_id(next[k])->0,
            });
        if k < prefix.len() {
            assert(prefix[k] == next[k]);
        }
    }
    assert forall|g: GoalRight| spec_required(goal_id, prefix).insert(g0).contains(g) implies spec_required(
        goal_id,
        next,
    ).contains(g) by {
        if g != g0 {
            let k = choose|k: int|
                0 <= k < prefix.len() && #[trigger] spec_right_id(prefix[k]) is Some && g == (
                GoalRight { goal_id, right_id: spec_right_id(prefix[k])->0 });
            assert(prefix[k] == next[k]);
        }
    }
    assert(spec_required(goal_id, next) =~= spec_required(goal_id, prefix).insert(g0));
    assert(all_rights_known(next) ==> all_rights_known(prefix)) by {
        if all_rights_known(next) {
            assert forall|k: int| 0 <= k < prefix.len() implies #[trigger] spec_right_id(prefix[k]) is Some by {
                assert(prefix[k] == next[k]);
            }
        }
    }
    assert(all_rights_known(prefix) ==> all_rights_known(next)) by {
        if all_rights_known(prefix) {
            assert forall|k: int| 0 <= k < next.len() implies #[trigger] spec_right_id(next[k]) is Some by {
                if k < prefix.len() {
                    assert(prefix[k] == next[k]);
                }
            }
        }
    }
}

/// How long a user's permissions stay in the cache, in seconds.
pub const PERMISSIONS_CACHE_SECONDS: u64 = 300;

/// The cache key under which a user's permissions are kept: "user:" and the
/// user's identifier in decimal.
pub fn permissions_cache_key(user_id: i64) -> (r: String)
    ensures
        r@ == "user:"@ + int_text(user_id as int),
{
    let mut key = "user:".to_owned();
    append_int(&mut key, user_id);
    key
}

/// Checks of a user's rights.
pub struct PermissionService {}

impl PermissionService {
    pub fn new() -> (r: PermissionService) {
        PermissionService {  }
    }

    /// The rights that a check of `actions` on `resource` asks for. Fails with
    /// an internal server error when the resource or an action is not a known
    /// name; an action listed more than once asks for its right once.
    pub fn required_rights(&self, resource: &str, actions: &[&str]) -> (r: Result<RightSet, LocoError>)
        ensures
            match r {
                Ok(set) => check_is_defined(resource@, names_of(actions@)) && set@ == spec_required(
                    spec_goal_id(resource@)->0,
                    names_of(actions@),
                ),
                Err(e) => !check_is_defined(resource@, names_of(actions@)) && e
                    == LocoError::InternalServerError,
            },
    {
        let goal_by_name = get_goal_by_name();
        let right_by_name = get_right_by_name();
        let goal_id = match goal_by_name.get(resource) {
            Some(id) => id,
            None => {
                return Err(LocoError::InternalServerError);
            },
        };
        let ghost names = names_of(actions@);
        let mut required = RightSet::new();
        let mut i: usize = 0;
        let mut known = true;
        proof {
            assert(names.take(0) =~= Seq::<Seq<char>>::empty());
            assert(required@ =~= spec_required(goal_id, names.take(0)));
        }
        while i < actions.len()
            invariant
                i <= actions.len(),
                names == names_of(actions@),
                names.len() == actions@.len(),
                forall|n: Seq<char>| #[trigger] right_by_name.spec_get(n) == spec_right_id(n),
                required@.finite(),
                required@ == spec_required(goal_id, names.take(i as int)),
                known == all_rights_known(names.take(i as int)),
            decreases actions.len() - i,
        {
            let ghost prefix = names.take(i as int);
            let ghost next = names.take(i + 1);
            assert(next =~= prefix.push(names[i as int]));
            assert(actions[i as int]@ == names[i as int]);
            match right_by_name.get(actions[i]) {
                Some(right_id) => {
                    let g = GoalRight { goal_id, right_id };
                    required.insert(g);
                    proof {
                        lemma_required_step_known(goal_id, prefix, names[i as int]);
                    }
                },
                None => {
                    known = false;
                    proof {
                        lemma_required_step_unknown(goal_id, prefix, names[i as int]);
                    }
                },
            }
            i = i + 1;
        }
        assert(names.take(i as int) =~= names);
        if !known {
            return Err(LocoError::InternalServerError);
        }
        Ok(required)
    }

    /// Whether a user with the rights `user_permissions` may perform every
    /// one of `actions` on `resource`. Fails as `required_rights` does.
    pub fn check_permission(
        &self,
        user_permissions: &RightSet,
        resource: &str,
        actions: &[&str],
    ) -> (r: Result<bool, LocoError>)
        ensures
            match r {
                Ok(b) => check_is_defined(resource@, names_of(actions@)) && b == spec_required(
                    spec_goal_id(resource@)->0,
                    names_of(actions@),
                ).subset_of(user_permissions@),
                Err(e) => !check_is_defined(resource@, names_of(actions@)) && e
                    == LocoError::InternalServerError,
            },
    {
        let required = self.required_rights(resource, actions)?;
        Ok(required.is_subset(user_permissions))
    }
}

/// A check of one known action on a known goal asks exactly whether the user
/// holds that one right.
pub proof fn lemma_single_action_check(goal_id: i32, action: Seq<char>, perms: Set<GoalRight>)
    requires
        spec_right_id(action) is Some,
    ensures
        spec_required(goal_id, seq![action]).subset_of(perms) <==> perms.contains(
            GoalRight { goal_id, right_id: spec_right_id(action)->0 },
        ),
{
    let g0 = GoalRight { goal_id, right_id: spec_right_id(action)->0 };
    let s = seq![action];
    assert(s[0] == action);
    assert(spec_required(goal_id, s).contains(g0));
    if perms.contains(g0) {
        assert forall|g: GoalRight| spec_required(goal_id, s).contains(g) implies perms.contains(g) by {
            let k = choose|k: int|
                0 <= k < s.len() && #[trigger] spec_right_id(s[k]) is Some && g == (GoalRight {
                    goal_id,
                    right_id: spec_right_id(s[k])->0,
                });
            assert(k == 0);
        }
    }
}

/// Holding every right of a one-element list is holding that right.
pub proof fn lemma_has_any_single(rights: Set<GoalRight>, goal_id: i32, right_id: i32)
    ensures
        (forall|i: int|
            0 <= i < seq![right_id].len() ==> rights.contains(
                GoalRight { goal_id, right_id: #[trigger] seq![right_id][i] },
            )) <==> rights.contains(GoalRight { goal_id, right_id }),
{
    assert(seq![right_id][0] == right_id);
}

/// Granting more rights never turns a permitted check into a refused one.
pub proof fn lemma_check_monotone(
    goal_id: i32,
    actions: Seq<Seq<char>>,
    perms: Set<GoalRight>,
    more: Set<GoalRight>,
)
    requires
        perms.subset_of(more),
        spec_required(goal_id, actions).subset_of(perms),
    ensures
        spec_required(goal_id, actions).subset_of(more),
{
}

/// A check asks for every listed right: if it is permitted, then the user
/// holds each right that an action names on the goal.
pub proof fn lemma_check_covers_each_action(
    goal_id: i32,
    actions: Seq<Seq<char>>,
    perms: Set<GoalRight>,
    i: int,
)
    requires
        all_rights_known(actions),
        0 <= i < actions.len(),
        spec_required(goal_id, actions).subset_of(perms),
    ensures
        perms.contains(GoalRight { goal_id, right_id: spec_right_id(actions[i])->0 }),
{
    assert(spec_right_id(actions[i]) is Some);
    assert(spec_required(goal_id, actions).contains(
        GoalRight { goal_id, right_id: spec_right_id(actions[i])->0 },
    ));
}

} // verus!

use vstd::prelude::*;
use crate::text::starts_with;

verus! {

/// The variables of a list as a map from name to value; where a name occurs
/// more than once, its last value counts.
pub open spec fn env_map(envs: Seq<(String, String)>) -> Map<Seq<char>, Seq<char>>
    decreases envs.len(),
{
    if envs.len() == 0 {
        Map::empty()
    } else {
        env_map(envs.drop_last()).insert(envs.last().0@, envs.last().1@)
    }
}

/// No name occurs twice in the list.
pub open spec fn distinct_names(envs: Seq<(String, String)>) -> bool {
    forall|i: int, j: int| 0 <= i < j < envs.len() ==> envs[i].0@ != envs[j].0@
}

/// A variable that selects the locale: its name begins with `LC_` or `LANG_`.
pub open spec fn is_locale_name(name: Seq<char>) -> bool {
    "LC_"@.is_prefix_of(name) || "LANG_"@.is_prefix_of(name)
}

/// The locale variables of the process environment.
pub open spec fn locale_envs(process_envs: Seq<(String, String)>) -> Map<Seq<char>, Seq<char>> {
    Map::new(
        |name: Seq<char>| env_map(process_envs).contains_key(name) && is_locale_name(name),
        |name: Seq<char>| env_map(process_envs)[name],
    )
}

/// The value sent for `LANG`: that of the process environment, or `C.UTF-8`
/// where the process has none.
pub open spec fn lang_value(process_envs: Seq<(String, String)>) -> Seq<char> {
    if env_map(process_envs).contains_key("LANG"@) {
        env_map(process_envs)["LANG"@]
    } else {
        "C.UTF-8"@
    }
}

/// The variables set on a new shell: the locale variables of the process and
/// `LANG`, overridden by whatever the caller supplies.
pub open spec fn prepared_envs(
    process_envs: Seq<(String, String)>,
    custom_envs: Seq<(String, String)>,
) -> Map<Seq<char>, Seq<char>> {
    locale_envs(process_envs).insert("LANG"@, lang_value(process_envs)).union_prefer_right(
        env_map(custom_envs),
    )
}

/// In a list without repeated names, the map holds exactly the listed names,
/// each with the value listed beside it.
pub proof fn lemma_env_map_of_distinct(envs: Seq<(String, String)>)
    requires
        distinct_names(envs),
    ensures
        forall|i: int| 0 <= i < envs.len() ==> env_map(envs).contains_key(#[trigger] envs[i].0@)
            && env_map(envs)[envs[i].0@] == envs[i].1@,
        forall|name: Seq<char>| #[trigger]
            env_map(envs).contains_key(name) ==> exists|i: int|
                0 <= i < envs.len() && #[trigger] envs[i].0@ == name,
    decreases envs.len(),
{
    if envs.len() > 0 {
        let head = envs.drop_last();
        lemma_env_map_of_distinct(head);
        assert forall|i: int| 0 <= i < envs.len() implies env_map(envs).contains_key(
            #[trigger] envs[i].0@,
        ) && env_map(envs)[envs[i].0@] == envs[i].1@ by {
            if i < envs.len() - 1 {
                assert(head[i] == envs[i]);
                assert(envs[i].0@ != envs[envs.len() - 1].0@);
            }
        }
        assert forall|name: Seq<char>| #[trigger] env_map(envs).contains_key(name) implies exists|
            i: int,
        |
            0 <= i < envs.len() && #[trigger] envs[i].0@ == name by {
            if name == envs.last().0@ {
                assert(envs[envs.len() - 1].0@ == name);
            } else {
                assert(env_map(head).contains_key(name));
                let i = choose|i: int| 0 <= i < head.len() && #[trigger] head[i].0@ == name;
                assert(envs[i].0@ == name);
            }
        }
    }
}

/// Sets `name` to `value` in the list: an entry of that name gets the new
/// value, and a new name is added at the end.
pub fn env_set(envs: &mut Vec<(String, String)>, name: String, value: String)
    requires
        distinct_names(old(envs)@),
    ensures
        distinct_names(final(envs)@),
        env_map(final(envs)@) == env_map(old(envs)@).insert(name@, value@),
{
    let ghost before = envs@;
    let ghost target = env_map(before).insert(name@, value@);
    proof {
        lemma_env_map_of_distinct(before);
    }
    let mut i: usize = 0;
    while i < envs.len()
        invariant
            envs@ == before,
            before == old(envs)@,
            distinct_names(before),
            target == env_map(before).insert(name@, value@),
            i <= envs@.len(),
            forall|j: int| 0 <= j < i ==> envs@[j].0@ != name@,
        decreases envs@.len() - i,
    {
        if envs[i].0 == name {
            envs.set(i, (name, value));
            proof {
                let after = envs@;
                assert(before[i as int].0@ == name@);
                assert forall|a: int| 0 <= a < after.len() implies #[trigger] after[a].0@
                    == before[a].0@ by {}
                assert forall|a: int, b: int| 0 <= a < b < after.len() implies after[a].0@
                    != after[b].0@ by {
                    assert(before[a].0@ != before[b].0@);
                }
                lemma_env_map_of_distinct(before);
                lemma_env_map_of_distinct(after);
                assert forall|k: Seq<char>| target.contains_key(k) implies #[trigger] env_map(
                    after,
                ).contains_key(k) && env_map(after)[k] == target[k] by {
                    if k == name@ {
                        assert(after[i as int].0@ == name@);
                    } else {
                        let j = choose|j: int| 0 <= j < before.len() && #[trigger] before[j].0@ == k;
                        assert(after[j] == before[j]);
                        assert(after[j].0@ == k);
                    }
                }
                assert forall|k: Seq<char>| #[trigger]
                    env_map(after).contains_key(k) implies target.contains_key(k) by {
                    let j = choose|j: int| 0 <= j < after.len() && #[trigger] after[j].0@ == k;
                    if j != i {
                        assert(before[j] == after[j]);
                        assert(before[j].0@ == k);
                    }
                }
                assert(env_map(after) =~= target);
            }
            return ;
        }
        i += 1;
    }
    envs.push((name, value));
    proof {
        assert(envs@.drop_last() =~= before);
    }
}

/// Whether the name begins with `LC_` or `LANG_`.
pub fn is_locale_env(name: &str) -> (b: bool)
    ensures
        b == is_locale_name(name@),
{
    starts_with(name, "LC_") || starts_with(name, "LANG_")
}

/// Chooses the environment variables of a new shell. From the process
/// environment come the locale variables and `LANG` (`C.UTF-8` where the
/// process has none); the caller's own variables are laid over them and win.
pub fn prepare_envs(
    process_envs: &Vec<(String, String)>,
    custom_envs: &Vec<(String, String)>,
) -> (envs: Vec<(String, String)>)
    ensures
        distinct_names(envs@),
        env_map(envs@) == prepared_envs(process_envs@, custom_envs@),
{
    let mut envs: Vec<(String, String)> = Vec::new();
    let mut lang = String::from_str("C.UTF-8");
    let lang_name = String::from_str("LANG");
    let mut i: usize = 0;
    proof {
        assert(process_envs@.take(0) =~= Seq::<(String, String)>::empty());
        assert(env_map(envs@) =~= locale_envs(process_envs@.take(0)));
    }
    while i < process_envs.len()
        invariant
            i <= process_envs@.len(),
            distinct_names(envs@),
            env_map(envs@) == locale_envs(process_envs@.take(i as int)),
            lang@ == lang_value(process_envs@.take(i as int)),
            lang_name@ == "LANG"@,
        decreases process_envs@.len() - i,
    {
        let ghost upto = process_envs@.take(i as int + 1);
        proof {
            assert(upto.drop_last() =~= process_envs@.take(i as int));
            assert(upto.last() == process_envs@[i as int]);
        }
        let name = &process_envs[i].0;
        let value = &process_envs[i].1;
        if is_locale_env(name.as_str()) {
            env_set(&mut envs, name.clone(), value.clone());
        }
        if *name == lang_name {
            lang = value.clone();
        }
        proof {
            assert(env_map(envs@) =~= locale_envs(upto));
        }
        i += 1;
    }
    proof {
        assert(process_envs@.take(i as int) =~= process_envs@);
    }
    env_set(&mut envs, lang_name, lang);
    let ghost base = env_map(envs@);
    let mut j: usize = 0;
    proof {
        assert(custom_envs@.take(0) =~= Seq::<(String, String)>::empty());
        assert(env_map(envs@) =~= base.union_prefer_right(env_map(custom_envs@.take(0))));
    }
    while j < custom_envs.len()
        invariant
            j <= custom_envs@.len(),
            distinct_names(envs@),
            base == locale_envs(process_envs@).insert("LANG"@, lang_value(process_envs@)),
            env_map(envs@) == base.union_prefer_right(env_map(custom_envs@.take(j as int))),
        decreases custom_envs@.len() - j,
    {
        let ghost upto = custom_envs@.take(j as int + 1);
        proof {
            assert(upto.drop_last() =~= custom_envs@.take(j as int));
            assert(upto.last() == custom_envs@[j as int]);
        }
        env_set(&mut envs, custom_envs[j].0.clone(), custom_envs[j].1.clone());
        proof {
            assert(env_map(envs@) =~= base.union_prefer_right(env_map(upto)));
        }
        j += 1;
    }
    proof {
        assert(custom_envs@.take(j as int) =~= custom_envs@);
    }
    envs
}

} // verus!

use vstd::prelude::*;
use vstd::string::*;
use crate::asr::model_file_spec;
use crate::order::{insert_sorted, sorted, strictly_sorted, views};
use crate::paths::{data_dir, dir_or_empty, join_path, joins, joins2, lemma_join_plain, lemma_long_name, or_empty, plain_base};
use crate::text::{chars_end_with, chars_of, chars_start_with, ends_with, starts_with, string_from_chars, sub_chars};

verus! {

broadcast use {vstd::seq_lib::group_to_multiset_ensures, vstd::seq::group_seq_axioms};

/// The model a file in a models directory holds: `ggml-NAME.bin` holds `NAME`.
pub open spec fn model_of_file(name: Seq<char>) -> Option<Seq<char>> {
    if starts_with(name, "ggml-"@) && ends_with(name, ".bin"@) {
        Some(name.subrange(5, name.len() - 4))
    } else {
        None
    }
}

/// The model name in a file name of the form `ggml-NAME.bin`.
pub fn model_from_file_name(name: &str) -> (r: Option<String>)
    ensures
        opt_view(r) == model_of_file(name@),
{
    let v = chars_of(name);
    if chars_start_with(v.as_slice(), "ggml-") && chars_end_with(v.as_slice(), ".bin") {
        proof {
            reveal_strlit("ggml-");
            reveal_strlit(".bin");
            let n = v@.len();
            if n < 9 {
                assert(v@.subrange(0, 5)[4] == '-');
                assert(v@.subrange(n - 4, n as int)[0] == '.');
                assert(v@[4] == '-');
                assert(v@[n - 4] == '.');
                assert(v@.subrange(0, 5)[(n - 4) as int] == "ggml-"@[(n - 4) as int]);
            }
        }
        let m = sub_chars(v.as_slice(), 5, v.len() - 4);
        Some(string_from_chars(m.as_slice()))
    } else {
        None
    }
}

/// A model stored under its file name is listed under its own name again.
pub proof fn law_model_file_round_trip(m: Seq<char>)
    ensures
        model_of_file(model_file_spec(m)) == Some(m),
{
    reveal_strlit("ggml-");
    reveal_strlit(".bin");
    let f = model_file_spec(m);
    assert(f.subrange(0, 5) =~= "ggml-"@);
    assert(f.subrange(f.len() - 4, f.len() as int) =~= ".bin"@);
    assert(f.subrange(5, f.len() - 4) =~= m);
}

pub open spec fn opt_view(o: Option<String>) -> Option<Seq<char>> {
    match o {
        Some(s) => Some(s@),
        None => None,
    }
}

/// Some file among `names` holds model `m`.
pub open spec fn names_hold(names: Seq<Seq<char>>, m: Seq<char>) -> bool {
    exists|i: int| 0 <= i < names.len() && model_of_file(names[i]) == Some(m)
}

/// The models held by the given file names, without duplicates, in
/// ascending order.
pub fn collect_models(names: &Vec<String>) -> (r: Vec<String>)
    ensures
        strictly_sorted(views(r@)),
        forall|m: Seq<char>| views(r@).contains(m) <==> names_hold(views(names@), m),
{
    let mut out: Vec<String> = Vec::new();
    let n = names.len();
    for i in 0..n
        invariant
            n == names@.len(),
            strictly_sorted(views(out@)),
            forall|m: Seq<char>| views(out@).contains(m) <==> names_hold(views(names@).take(i as int), m),
    {
        let ghost before = views(out@);
        match model_from_file_name(names[i].as_str()) {
            Some(m) => {
                let ghost mv = m@;
                insert_sorted(&mut out, m, true);
                proof {
                    assert forall|x: Seq<char>| views(out@).contains(x) <==> names_hold(
                        views(names@).take(i + 1),
                        x,
                    ) by {
                        if before.contains(mv) {
                        } else {
                            assert(views(out@).to_multiset().count(x) == before.to_multiset().insert(mv).count(x));
                        }
                        if names_hold(views(names@).take(i + 1), x) {
                            let j = choose|j: int| 0 <= j < i + 1 && #[trigger] model_of_file(views(names@).take(i + 1)[j]) == Some(x);
                            if j < i {
                                assert(views(names@).take(i as int)[j] == views(names@).take(i + 1)[j]);
                            }
                        }
                        if names_hold(views(names@).take(i as int), x) {
                            let j = choose|j: int| 0 <= j < i && #[trigger] model_of_file(views(names@).take(i as int)[j]) == Some(x);
                            assert(views(names@).take(i as int)[j] == views(names@).take(i + 1)[j]);
                        }
                        assert(views(names@).take(i + 1)[i as int] == names@[i as int]@);
                    }
                }
            },
            None => {
                proof {
                    assert forall|x: Seq<char>| names_hold(views(names@).take(i + 1), x) <==> names_hold(
                        views(names@).take(i as int),
                        x,
                    ) by {
                        if names_hold(views(names@).take(i + 1), x) {
                            let j = choose|j: int| 0 <= j < i + 1 && #[trigger] model_of_file(views(names@).take(i + 1)[j]) == Some(x);
                            assert(views(names@).take(i + 1)[i as int] == names@[i as int]@);
                            assert(views(names@).take(i as int)[j] == views(names@).take(i + 1)[j]);
                        }
                        if names_hold(views(names@).take(i as int), x) {
                            let j = choose|j: int| 0 <= j < i && #[trigger] model_of_file(views(names@).take(i as int)[j]) == Some(x);
                            assert(views(names@).take(i as int)[j] == views(names@).take(i + 1)[j]);
                        }
                    }
                }
            },
        }
    }
    assert(views(names@).take(n as int) =~= views(names@));
    out
}

/// The strings of `v` in ascending order (`slice::sort` on strings).
pub fn sort_strings(v: Vec<String>) -> (r: Vec<String>)
    ensures
        sorted(views(r@)),
        views(r@).to_multiset() == views(v@).to_multiset(),
{
    let mut out: Vec<String> = Vec::new();
    let n = v.len();
    for i in 0..n
        invariant
            n == v@.len(),
            sorted(views(out@)),
            views(out@).to_multiset() == views(v@).take(i as int).to_multiset(),
    {
        let x = v[i].clone();
        insert_sorted(&mut out, x, false);
        proof {
            assert(views(v@).take(i + 1) =~= views(v@).take(i as int).push(v@[i as int]@));
        }
    }
    assert(views(v@).take(n as int) =~= views(v@));
    out
}

/// The directories searched for installed models, given the user's data
/// directory: the configured one when it is set, then `unmute/models` under
/// the data directory.
pub fn model_list_dirs_in(models_dir: &str, data: Option<String>) -> (r: Vec<String>)
    ensures
        models_dir@.len() > 0 ==> r@.len() == 2 && r@[0]@ == models_dir@,
        models_dir@.len() == 0 ==> r@.len() == 1,
        plain_base(dir_or_empty(data)) ==> joins2(dir_or_empty(data), "unmute"@, "models"@, r@.last()@),
        ends_with(r@.last()@, "models"@),
{
    let base = or_empty(data);
    proof {
        reveal_strlit("unmute");
        reveal_strlit("models");
        lemma_long_name("unmute"@);
        lemma_long_name("models"@);
    }
    let app = join_path(base.as_str(), "unmute");
    let models = join_path(app.as_str(), "models");
    proof {
        if plain_base(base@) {
            lemma_join_plain(base@, "unmute"@, app@);
            assert(joins(base@, "unmute"@, app@) && joins(app@, "models"@, models@));
        }
    }
    let mut r: Vec<String> = Vec::new();
    if !models_dir.is_empty() {
        r.push(String::from_str(models_dir));
    }
    r.push(models);
    r
}

/// The directories searched for installed models: `model_list_dirs_in` of
/// the user's data directory.
pub fn model_list_dirs(models_dir: &str) -> (r: Vec<String>)
    ensures
        models_dir@.len() > 0 ==> r@.len() == 2 && r@[0]@ == models_dir@,
        models_dir@.len() == 0 ==> r@.len() == 1,
        ends_with(r@.last()@, "models"@),
{
    model_list_dirs_in(models_dir, data_dir())
}

} // verus!

//! What each option of the command line does to the commands that cargo gets.

use vstd::prelude::*;

use crate::args::Args;
use crate::color;
use crate::color::Coloring;
use crate::context;
use crate::context::Context;
use crate::plan;
use crate::process;
use crate::text;

verus! {

/// How many words a flag is.
pub open spec fn one(given: bool) -> int {
    if given {
        1
    } else {
        0
    }
}

/// How many words there are before the features.
pub open spec fn features_at(cx: Context) -> int {
    one(cx.args.no_fail_fast) + one(cx.args.workspace) + 2 * cx.args.exclude@.len() + one(
        cx.args.release,
    )
}

/// How many words there are before the manifest.
pub open spec fn manifest_at(cx: Context) -> int {
    features_at(cx) + 2 * cx.args.features@.len() + one(cx.args.all_features) + one(
        cx.args.no_default_features,
    ) + 2 * one(cx.args.target is Some)
}

/// How many words there are before the flag for verbose output.
pub open spec fn verbose_at(cx: Context) -> int {
    manifest_at(cx) + 2 + 2 * one(cx.args.color is Some) + one(cx.args.frozen) + one(
        cx.args.locked,
    )
}

/// How many words there are before the arguments for the test binary and their `--`.
pub open spec fn test_args_at(cx: Context) -> int {
    verbose_at(cx) + one(cx.verbose is Some) + 2 * cx.args.unstable_flags@.len()
}

/// How many words the arguments for the test binary are, with their `--`.
pub open spec fn test_args_len(cx: Context) -> int {
    if cx.args.args@.len() > 0 {
        cx.args.args@.len() as int + 1
    } else {
        0
    }
}

/// The words of the pair of number `i` that follow `at` are a name and a value.
pub open spec fn is_pair(
    words: Seq<Seq<u8>>,
    at: int,
    name: Seq<char>,
    value: Seq<char>,
    i: int,
) -> bool {
    words[at + 2 * i] == text::utf8(name) && words[at + 2 * i + 1] == text::utf8(value)
}

/// From `at` on there are a name and a value, for each of `values`.
pub open spec fn has_pairs(
    words: Seq<Seq<u8>>,
    at: int,
    name: Seq<char>,
    values: Seq<Seq<char>>,
) -> bool {
    forall|i: int| 0 <= i < values.len() ==> #[trigger] is_pair(words, at, name, values[i], i)
}

/// The pairs in a part of a list are pairs in the list.
pub(crate) proof fn lemma_pairs_in(
    words: Seq<Seq<u8>>,
    part: Seq<Seq<u8>>,
    at: int,
    from: int,
    name: Seq<char>,
    values: Seq<Seq<char>>,
)
    requires
        0 <= from,
        from + 2 * values.len() <= part.len(),
        has_pairs(part, from, name, values),
        forall|j: int| at <= j < at + part.len() ==> #[trigger] words[j] == part[j - at],
    ensures
        has_pairs(words, at + from, name, values),
{
    assert forall|i: int| 0 <= i < values.len() implies #[trigger] is_pair(
        words,
        at + from,
        name,
        values[i],
        i,
    ) by {
        assert(is_pair(part, from, name, values[i], i));
        let (j, k) = (at + from + 2 * i, at + from + 2 * i + 1);
        assert(words[j] == part[j - at] && words[k] == part[k - at]);
    }
}

/// The options for verbosity and what follows them.
spec fn last_options(cx: Context) -> Seq<Seq<u8>> {
    context::verbose_option(cx) + context::unstable_options(cx) + context::test_args(
        text::words(cx.args.args@),
    )
}

/// Which packages are tested, and in which mode: each flag is one word exactly if it is given, and
/// each excluded package follows `--exclude`. No option depends on another.
pub open spec fn has_package_words(words: Seq<Seq<u8>>, at: int, cx: Context) -> bool {
    let workspace = at + one(cx.args.no_fail_fast);
    let exclude = workspace + one(cx.args.workspace);
    let release = exclude + 2 * cx.args.exclude@.len();
    &&& cx.args.no_fail_fast ==> words[at] == text::utf8("--no-fail-fast"@)
    &&& cx.args.workspace ==> words[workspace] == text::utf8("--workspace"@)
    &&& has_pairs(words, exclude, "--exclude"@, text::texts(cx.args.exclude@))
    &&& cx.args.release ==> words[release] == text::utf8("--release"@)
}

/// The package options are such words.
proof fn lemma_package_words(cx: Context)
    ensures
        context::package_options(cx).len() == features_at(cx),
        has_package_words(context::package_options(cx), 0, cx),
{
}

/// A list with such a part has such words.
proof fn lemma_package_words_in(words: Seq<Seq<u8>>, part: Seq<Seq<u8>>, at: int, cx: Context)
    requires
        part.len() == features_at(cx),
        has_package_words(part, 0, cx),
        0 <= at,
        at + part.len() <= words.len(),
        words.subrange(at, at + part.len()) == part,
    ensures
        has_package_words(words, at, cx),
{
    assert forall|j: int| at <= j < at + part.len() implies #[trigger] words[j] == part[j - at] by {
        assert(words.subrange(at, at + part.len())[j - at] == words[j]);
    }
    lemma_pairs_in(
        words,
        part,
        at,
        one(cx.args.no_fail_fast) + one(cx.args.workspace),
        "--exclude"@,
        text::texts(cx.args.exclude@),
    );
}

/// What is built: each list of features follows `--features`, each flag is one word exactly if it
/// is given, and the target follows `--target`.
pub open spec fn has_feature_words(words: Seq<Seq<u8>>, at: int, cx: Context) -> bool {
    let all = at + 2 * cx.args.features@.len();
    let none = all + one(cx.args.all_features);
    let target = none + one(cx.args.no_default_features);
    &&& has_pairs(words, at, "--features"@, text::texts(cx.args.features@))
    &&& cx.args.all_features ==> words[all] == text::utf8("--all-features"@)
    &&& cx.args.no_default_features ==> words[none] == text::utf8("--no-default-features"@)
    &&& cx.args.target matches Some(triple) ==> words[target] == text::utf8("--target"@)
        && words[target + 1] == text::utf8(triple@)
}

/// The feature options are such words.
proof fn lemma_feature_words(cx: Context)
    ensures
        context::feature_options(cx).len() == manifest_at(cx) - features_at(cx),
        has_feature_words(context::feature_options(cx), 0, cx),
{
}

/// A list with such a part has such words.
proof fn lemma_feature_words_in(words: Seq<Seq<u8>>, part: Seq<Seq<u8>>, at: int, cx: Context)
    requires
        part.len() == manifest_at(cx) - features_at(cx),
        has_feature_words(part, 0, cx),
        0 <= at,
        at + part.len() <= words.len(),
        words.subrange(at, at + part.len()) == part,
    ensures
        has_feature_words(words, at, cx),
{
    assert forall|j: int| at <= j < at + part.len() implies #[trigger] words[j] == part[j - at] by {
        assert(words.subrange(at, at + part.len())[j - at] == words[j]);
    }
    lemma_pairs_in(words, part, at, 0, "--features"@, text::texts(cx.args.features@));
}

/// How cargo reads the workspace: the manifest follows `--manifest-path`, the name of the colour
/// choice follows `--color`, and each flag is one word exactly if it is given.
pub open spec fn has_manifest_words(words: Seq<Seq<u8>>, at: int, cx: Context) -> bool {
    let frozen = at + 2 + 2 * one(cx.args.color is Some);
    let locked = frozen + one(cx.args.frozen);
    &&& words[at] == text::utf8("--manifest-path"@)
    &&& words[at + 1] == cx.manifest_path@
    &&& cx.args.color is Some ==> words[at + 2] == text::utf8("--color"@)
    &&& cx.args.color == Some(Coloring::Auto) ==> words[at + 3] == text::utf8("auto"@)
    &&& cx.args.color == Some(Coloring::Always) ==> words[at + 3] == text::utf8("always"@)
    &&& cx.args.color == Some(Coloring::Never) ==> words[at + 3] == text::utf8("never"@)
    &&& cx.args.frozen ==> words[frozen] == text::utf8("--frozen"@)
    &&& cx.args.locked ==> words[locked] == text::utf8("--locked"@)
}

/// The manifest options are such words.
proof fn lemma_manifest_words(cx: Context)
    ensures
        context::manifest_options(cx).len() == verbose_at(cx) - manifest_at(cx),
        has_manifest_words(context::manifest_options(cx), 0, cx),
{
}

/// A list with such a part has such words.
proof fn lemma_manifest_words_in(words: Seq<Seq<u8>>, part: Seq<Seq<u8>>, at: int, cx: Context)
    requires
        part.len() == verbose_at(cx) - manifest_at(cx),
        has_manifest_words(part, 0, cx),
        0 <= at,
        at + part.len() <= words.len(),
        words.subrange(at, at + part.len()) == part,
    ensures
        has_manifest_words(words, at, cx),
{
    assert forall|j: int| at <= j < at + part.len() implies #[trigger] words[j] == part[j - at] by {
        assert(words.subrange(at, at + part.len())[j - at] == words[j]);
    }
}

/// The flag for verbose output is one word exactly if there is one, each unstable flag follows
/// `-Z`, and the arguments for the test binary follow one `--`, which is only there for them.
pub open spec fn has_last_words(words: Seq<Seq<u8>>, at: int, cx: Context) -> bool {
    let flags = at + one(cx.verbose is Some);
    let own = flags + 2 * cx.args.unstable_flags@.len();
    &&& cx.verbose matches Some(verbose) ==> words[at] == text::utf8(verbose@)
    &&& has_pairs(words, flags, "-Z"@, text::texts(cx.args.unstable_flags@))
    &&& cx.args.args@.len() > 0 ==> words[own] == text::utf8("--"@)
    &&& forall|i: int|
        0 <= i < cx.args.args@.len() ==> words[own + 1 + i] == (#[trigger] cx.args.args@[i])@
}

/// The last options are such words.
proof fn lemma_last_words(cx: Context)
    ensures
        last_options(cx).len() == test_args_at(cx) + test_args_len(cx) - verbose_at(cx),
        has_last_words(last_options(cx), 0, cx),
{
}

/// A list with such a part has such words.
proof fn lemma_last_words_in(words: Seq<Seq<u8>>, part: Seq<Seq<u8>>, at: int, cx: Context)
    requires
        part.len() == test_args_at(cx) + test_args_len(cx) - verbose_at(cx),
        has_last_words(part, 0, cx),
        0 <= at,
        at + part.len() <= words.len(),
        words.subrange(at, at + part.len()) == part,
    ensures
        has_last_words(words, at, cx),
{
    assert forall|j: int| at <= j < at + part.len() implies #[trigger] words[j] == part[j - at] by {
        assert(words.subrange(at, at + part.len())[j - at] == words[j]);
    }
    lemma_pairs_in(
        words,
        part,
        at,
        one(cx.verbose is Some),
        "-Z"@,
        text::texts(cx.args.unstable_flags@),
    );
    let own = one(cx.verbose is Some) + 2 * cx.args.unstable_flags@.len();
    assert forall|i: int| 0 <= i < cx.args.args@.len() implies words[at + own + 1 + i] == (
    #[trigger] cx.args.args@[i])@ by {
        let j = at + own + 1 + i;
        assert(part[own + 1 + i] == cx.args.args@[i]@);
        assert(words[j] == part[j - at] && j - at == own + 1 + i);
    }
}

/// Where each of four lists stands in all of them together.
proof fn lemma_lists_in_order(a: Seq<Seq<u8>>, b: Seq<Seq<u8>>, c: Seq<Seq<u8>>, d: Seq<Seq<u8>>)
    ensures
        ({
            let all = a + b + c + d;
            let (to_b, to_c) = ((a.len() + b.len()) as int, (a.len() + b.len() + c.len()) as int);
            &&& all.len() == a.len() + b.len() + c.len() + d.len()
            &&& all.subrange(0, a.len() as int) == a
            &&& all.subrange(a.len() as int, to_b) == b
            &&& all.subrange(to_b, to_c) == c
            &&& all.subrange(to_c, all.len() as int) == d
        }),
{
    let all = a + b + c + d;
    let (to_b, to_c) = ((a.len() + b.len()) as int, (a.len() + b.len() + c.len()) as int);
    assert(all.subrange(0, a.len() as int) =~= a);
    assert(all.subrange(a.len() as int, to_b) =~= b);
    assert(all.subrange(to_b, to_c) =~= c);
    assert(all.subrange(to_c, all.len() as int) =~= d);
}

/// The parts of what cargo gets.
proof fn lemma_parts(cx: Context)
    ensures
        context::cargo_options(cx) == context::package_options(cx) + context::feature_options(cx)
            + context::manifest_options(cx) + last_options(cx),
{
    assert(context::cargo_options(cx) =~= context::options_before_verbose(cx) + last_options(cx));
}

/// A list that is made of four parts has the words of each.
proof fn lemma_words_of_parts(
    cx: Context,
    words: Seq<Seq<u8>>,
    a: Seq<Seq<u8>>,
    b: Seq<Seq<u8>>,
    c: Seq<Seq<u8>>,
    d: Seq<Seq<u8>>,
)
    requires
        words == a + b + c + d,
        a.len() == features_at(cx),
        b.len() == manifest_at(cx) - features_at(cx),
        c.len() == verbose_at(cx) - manifest_at(cx),
        d.len() == test_args_at(cx) + test_args_len(cx) - verbose_at(cx),
        has_package_words(a, 0, cx),
        has_feature_words(b, 0, cx),
        has_manifest_words(c, 0, cx),
        has_last_words(d, 0, cx),
    ensures
        words.len() == test_args_at(cx) + test_args_len(cx),
        has_package_words(words, 0, cx),
        has_feature_words(words, features_at(cx), cx),
        has_manifest_words(words, manifest_at(cx), cx),
        has_last_words(words, verbose_at(cx), cx),
{
    lemma_lists_in_order(a, b, c, d);
    lemma_package_words_in(words, a, 0, cx);
    lemma_feature_words_in(words, b, features_at(cx), cx);
    lemma_manifest_words_in(words, c, manifest_at(cx), cx);
    lemma_last_words_in(words, d, verbose_at(cx), cx);
}

/// Every option of the command line reaches cargo as its own words, in a fixed order, and cargo
/// gets nothing besides.
pub proof fn lemma_cargo_gets_every_option(cx: Context)
    ensures
        context::cargo_options(cx).len() == test_args_at(cx) + test_args_len(cx),
        has_package_words(context::cargo_options(cx), 0, cx),
        has_feature_words(context::cargo_options(cx), features_at(cx), cx),
        has_manifest_words(context::cargo_options(cx), manifest_at(cx), cx),
        has_last_words(context::cargo_options(cx), verbose_at(cx), cx),
{
    lemma_package_words(cx);
    lemma_feature_words(cx);
    lemma_manifest_words(cx);
    lemma_last_words(cx);
    lemma_parts(cx);
    lemma_words_of_parts(
        cx,
        context::cargo_options(cx),
        context::package_options(cx),
        context::feature_options(cx),
        context::manifest_options(cx),
        last_options(cx),
    );
}

/// Lists one after the other.
pub(crate) open spec fn concat(lists: Seq<Seq<Seq<u8>>>) -> Seq<Seq<u8>>
    decreases lists.len(),
{
    if lists.len() == 0 {
        Seq::empty()
    } else {
        concat(lists.drop_last()) + lists.last()
    }
}

/// Lists one after the other can be grouped.
pub(crate) proof fn lemma_concat_groups(a: Seq<Seq<Seq<u8>>>, b: Seq<Seq<Seq<u8>>>)
    ensures
        concat(a + b) == concat(a) + concat(b),
    decreases b.len(),
{
    if b.len() == 0 {
        assert(a + b =~= a);
        assert(concat(a) + concat(b) =~= concat(a));
    } else {
        lemma_concat_groups(a, b.drop_last());
        assert((a + b).drop_last() =~= a + b.drop_last());
        assert(concat(a) + concat(b.drop_last()) + b.last() =~= concat(a) + concat(b));
    }
}

/// Where one of several lists has a single word, it can be taken out of all of them together.
pub(crate) proof fn lemma_concat_without_word(lists: Seq<Seq<Seq<u8>>>, k: int)
    requires
        0 <= k < lists.len(),
        lists[k].len() == 1,
    ensures
        ({
            let with = concat(lists);
            let without = concat(lists.update(k, Seq::empty()));
            exists|at: int|
                0 <= at < with.len() && #[trigger] with[at] == lists[k][0] && with.remove(at)
                    == without
        }),
        concat(lists).len() == concat(lists.update(k, Seq::empty())).len() + 1,
    decreases lists.len(),
{
    let shorter = lists.update(k, Seq::empty());
    let with = concat(lists);
    let without = concat(shorter);
    let start = concat(lists.drop_last());
    if k == lists.len() - 1 {
        assert(shorter.drop_last() =~= lists.drop_last());
        assert(without =~= start);
        let at = start.len() as int;
        assert(with[at] == lists[k][0]);
        assert(with.remove(at) =~= without);
    } else {
        lemma_concat_without_word(lists.drop_last(), k);
        assert(shorter.drop_last() =~= lists.drop_last().update(k, Seq::empty()));
        let rest = concat(shorter.drop_last());
        let at = choose|at: int|
            0 <= at < start.len() && #[trigger] start[at] == lists[k][0] && start.remove(at) == rest;
        assert(with[at] == lists[k][0]);
        assert(with.remove(at) =~= start.remove(at) + lists.last());
    }
}

/// The manifest and the colour choice.
spec fn reading_options(cx: Context) -> Seq<Seq<u8>> {
    seq![text::utf8("--manifest-path"@), cx.manifest_path@] + context::optional(
        "--color"@,
        match cx.args.color {
            Some(color) => Some(color::color_name(color)),
            None => None,
        },
    )
}

/// The words of each option.
#[verifier::opaque]
spec fn option_words(cx: Context) -> Seq<Seq<Seq<u8>>> {
    seq![
        context::flag(cx.args.no_fail_fast, "--no-fail-fast"@),
        context::flag(cx.args.workspace, "--workspace"@),
        context::repeated("--exclude"@, text::texts(cx.args.exclude@)),
        context::flag(cx.args.release, "--release"@),
        context::repeated("--features"@, text::texts(cx.args.features@)),
        context::flag(cx.args.all_features, "--all-features"@),
        context::flag(cx.args.no_default_features, "--no-default-features"@),
        context::optional("--target"@, process::optional_text(cx.args.target)),
        reading_options(cx),
        context::flag(cx.args.frozen, "--frozen"@),
        context::flag(cx.args.locked, "--locked"@),
        last_options(cx),
    ]
}

/// A list of lists in three parts.
proof fn lemma_concat_parts(
    all: Seq<Seq<Seq<u8>>>,
    a: Seq<Seq<u8>>,
    b: Seq<Seq<u8>>,
    c: Seq<Seq<u8>>,
)
    requires
        all.len() == 12,
        a == all[0] + all[1] + all[2] + all[3],
        b == all[4] + all[5] + all[6] + all[7],
        c == all[8] + all[9] + all[10],
    ensures
        concat(all) == a + b + c + all[11],
{
    reveal_with_fuel(concat, 5);
    let (x, y, z) = (all.subrange(0, 4), all.subrange(4, 8), all.subrange(8, 11));
    lemma_concat_four(x);
    lemma_concat_four(y);
    lemma_concat_three(z);
    lemma_concat_groups(x, y);
    lemma_concat_groups(x + y, z);
    assert(all.drop_last() =~= x + y + z);
}

/// Three lists one after the other.
proof fn lemma_concat_three(x: Seq<Seq<Seq<u8>>>)
    requires
        x.len() == 3,
    ensures
        concat(x) == x[0] + x[1] + x[2],
{
    reveal_with_fuel(concat, 4);
    assert(Seq::<Seq<u8>>::empty() + x[0] =~= x[0]);
}

/// Four lists one after the other.
proof fn lemma_concat_four(x: Seq<Seq<Seq<u8>>>)
    requires
        x.len() == 4,
    ensures
        concat(x) == x[0] + x[1] + x[2] + x[3],
{
    lemma_concat_three(x.drop_last());
}

/// The words of each option, in groups.
proof fn lemma_option_groups(cx: Context)
    ensures
        ({
            let all = option_words(cx);
            &&& all.len() == 12
            &&& context::package_options(cx) == all[0] + all[1] + all[2] + all[3]
            &&& context::feature_options(cx) == all[4] + all[5] + all[6] + all[7]
            &&& context::manifest_options(cx) == all[8] + all[9] + all[10]
            &&& last_options(cx) == all[11]
        }),
{
    reveal(option_words);
}

/// What cargo gets is the words of each option.
proof fn lemma_option_words(cx: Context)
    ensures
        context::cargo_options(cx) == concat(option_words(cx)),
{
    lemma_parts(cx);
    lemma_option_groups(cx);
    lemma_concat_parts(
        option_words(cx),
        context::package_options(cx),
        context::feature_options(cx),
        context::manifest_options(cx),
    );
}

/// One list of words is another with `word` in one more place.
pub open spec fn is_one_word_more(with: Seq<Seq<u8>>, without: Seq<Seq<u8>>, word: Seq<char>) -> bool {
    &&& with.len() == without.len() + 1
    &&& exists|at: int|
        0 <= at < with.len() && #[trigger] with[at] == text::utf8(word) && with.remove(at)
            == without
}

/// One word is the difference between two lists of options of which one has a word more.
proof fn lemma_options_differ_by(
    on: Context,
    off: Context,
    k: int,
    word: Seq<char>,
)
    requires
        0 <= k < option_words(on).len(),
        option_words(on)[k] == seq![text::utf8(word)],
        option_words(on).update(k, Seq::empty()) == option_words(off),
    ensures
        is_one_word_more(context::cargo_options(on), context::cargo_options(off), word),
{
    lemma_option_words(on);
    lemma_option_words(off);
    lemma_concat_without_word(option_words(on), k);
}

/// `--no-fail-fast` adds that one word to what cargo gets and changes nothing else of it, whatever else is
/// asked.
pub proof fn lemma_no_fail_fast_is_one_word(cx: Context)
    ensures
        is_one_word_more(
            context::cargo_options(Context { args: Args { no_fail_fast: true, ..cx.args }, ..cx }),
            context::cargo_options(Context { args: Args { no_fail_fast: false, ..cx.args }, ..cx }),
            "--no-fail-fast"@,
        ),
{
    let on = Context { args: Args { no_fail_fast: true, ..cx.args }, ..cx };
    let off = Context { args: Args { no_fail_fast: false, ..cx.args }, ..cx };
    lemma_no_fail_fast_words(on, off);
    lemma_options_differ_by(on, off, 0, "--no-fail-fast"@);
}

/// The words of the two command lines differ in one place.
proof fn lemma_no_fail_fast_words(on: Context, off: Context)
    requires
        on.args.no_fail_fast,
        off == (Context { args: Args { no_fail_fast: false, ..on.args }, ..on }),
    ensures
        option_words(on).len() == 12,
        option_words(on)[0] == seq![text::utf8("--no-fail-fast"@)],
        option_words(on).update(0, Seq::empty()) == option_words(off),
{
    reveal(option_words);
    assert(option_words(on).update(0, Seq::empty()) =~= option_words(off));
}

/// `--workspace` adds that one word to what cargo gets and changes nothing else of it, whatever else is
/// asked.
pub proof fn lemma_workspace_is_one_word(cx: Context)
    ensures
        is_one_word_more(
            context::cargo_options(Context { args: Args { workspace: true, ..cx.args }, ..cx }),
            context::cargo_options(Context { args: Args { workspace: false, ..cx.args }, ..cx }),
            "--workspace"@,
        ),
{
    let on = Context { args: Args { workspace: true, ..cx.args }, ..cx };
    let off = Context { args: Args { workspace: false, ..cx.args }, ..cx };
    lemma_workspace_words(on, off);
    lemma_options_differ_by(on, off, 1, "--workspace"@);
}

/// The words of the two command lines differ in one place.
proof fn lemma_workspace_words(on: Context, off: Context)
    requires
        on.args.workspace,
        off == (Context { args: Args { workspace: false, ..on.args }, ..on }),
    ensures
        option_words(on).len() == 12,
        option_words(on)[1] == seq![text::utf8("--workspace"@)],
        option_words(on).update(1, Seq::empty()) == option_words(off),
{
    reveal(option_words);
    assert(option_words(on).update(1, Seq::empty()) =~= option_words(off));
}

/// `--release` adds that one word to what cargo gets and changes nothing else of it, whatever else is
/// asked.
pub proof fn lemma_release_is_one_word(cx: Context)
    ensures
        is_one_word_more(
            context::cargo_options(Context { args: Args { release: true, ..cx.args }, ..cx }),
            context::cargo_options(Context { args: Args { release: false, ..cx.args }, ..cx }),
            "--release"@,
        ),
{
    let on = Context { args: Args { release: true, ..cx.args }, ..cx };
    let off = Context { args: Args { release: false, ..cx.args }, ..cx };
    lemma_release_words(on, off);
    lemma_options_differ_by(on, off, 3, "--release"@);
}

/// The words of the two command lines differ in one place.
proof fn lemma_release_words(on: Context, off: Context)
    requires
        on.args.release,
        off == (Context { args: Args { release: false, ..on.args }, ..on }),
    ensures
        option_words(on).len() == 12,
        option_words(on)[3] == seq![text::utf8("--release"@)],
        option_words(on).update(3, Seq::empty()) == option_words(off),
{
    reveal(option_words);
    assert(option_words(on).update(3, Seq::empty()) =~= option_words(off));
}

/// `--all-features` adds that one word to what cargo gets and changes nothing else of it, whatever else is
/// asked.
pub proof fn lemma_all_features_is_one_word(cx: Context)
    ensures
        is_one_word_more(
            context::cargo_options(Context { args: Args { all_features: true, ..cx.args }, ..cx }),
            context::cargo_options(Context { args: Args { all_features: false, ..cx.args }, ..cx }),
            "--all-features"@,
        ),
{
    let on = Context { args: Args { all_features: true, ..cx.args }, ..cx };
    let off = Context { args: Args { all_features: false, ..cx.args }, ..cx };
    lemma_all_features_words(on, off);
    lemma_options_differ_by(on, off, 5, "--all-features"@);
}

/// The words of the two command lines differ in one place.
proof fn lemma_all_features_words(on: Context, off: Context)
    requires
        on.args.all_features,
        off == (Context { args: Args { all_features: false, ..on.args }, ..on }),
    ensures
        option_words(on).len() == 12,
        option_words(on)[5] == seq![text::utf8("--all-features"@)],
        option_words(on).update(5, Seq::empty()) == option_words(off),
{
    reveal(option_words);
    assert(option_words(on).update(5, Seq::empty()) =~= option_words(off));
}

/// `--no-default-features` adds that one word to what cargo gets and changes nothing else of it, whatever else is
/// asked.
pub proof fn lemma_no_default_features_is_one_word(cx: Context)
    ensures
        is_one_word_more(
            context::cargo_options(Context { args: Args { no_default_features: true, ..cx.args }, ..cx }),
            context::cargo_options(Context { args: Args { no_default_features: false, ..cx.args }, ..cx }),
            "--no-default-features"@,
        ),
{
    let on = Context { args: Args { no_default_features: true, ..cx.args }, ..cx };
    let off = Context { args: Args { no_default_features: false, ..cx.args }, ..cx };
    lemma_no_default_features_words(on, off);
    lemma_options_differ_by(on, off, 6, "--no-default-features"@);
}

/// The words of the two command lines differ in one place.
proof fn lemma_no_default_features_words(on: Context, off: Context)
    requires
        on.args.no_default_features,
        off == (Context { args: Args { no_default_features: false, ..on.args }, ..on }),
    ensures
        option_words(on).len() == 12,
        option_words(on)[6] == seq![text::utf8("--no-default-features"@)],
        option_words(on).update(6, Seq::empty()) == option_words(off),
{
    reveal(option_words);
    assert(option_words(on).update(6, Seq::empty()) =~= option_words(off));
}

/// `--frozen` adds that one word to what cargo gets and changes nothing else of it, whatever else is
/// asked.
pub proof fn lemma_frozen_is_one_word(cx: Context)
    ensures
        is_one_word_more(
            context::cargo_options(Context { args: Args { frozen: true, ..cx.args }, ..cx }),
            context::cargo_options(Context { args: Args { frozen: false, ..cx.args }, ..cx }),
            "--frozen"@,
        ),
{
    let on = Context { args: Args { frozen: true, ..cx.args }, ..cx };
    let off = Context { args: Args { frozen: false, ..cx.args }, ..cx };
    lemma_frozen_words(on, off);
    lemma_options_differ_by(on, off, 9, "--frozen"@);
}

/// The words of the two command lines differ in one place.
proof fn lemma_frozen_words(on: Context, off: Context)
    requires
        on.args.frozen,
        off == (Context { args: Args { frozen: false, ..on.args }, ..on }),
    ensures
        option_words(on).len() == 12,
        option_words(on)[9] == seq![text::utf8("--frozen"@)],
        option_words(on).update(9, Seq::empty()) == option_words(off),
{
    reveal(option_words);
    assert(option_words(on).update(9, Seq::empty()) =~= option_words(off));
}

/// `--locked` adds that one word to what cargo gets and changes nothing else of it, whatever else is
/// asked.
pub proof fn lemma_locked_is_one_word(cx: Context)
    ensures
        is_one_word_more(
            context::cargo_options(Context { args: Args { locked: true, ..cx.args }, ..cx }),
            context::cargo_options(Context { args: Args { locked: false, ..cx.args }, ..cx }),
            "--locked"@,
        ),
{
    let on = Context { args: Args { locked: true, ..cx.args }, ..cx };
    let off = Context { args: Args { locked: false, ..cx.args }, ..cx };
    lemma_locked_words(on, off);
    lemma_options_differ_by(on, off, 10, "--locked"@);
}

/// The words of the two command lines differ in one place.
proof fn lemma_locked_words(on: Context, off: Context)
    requires
        on.args.locked,
        off == (Context { args: Args { locked: false, ..on.args }, ..on }),
    ensures
        option_words(on).len() == 12,
        option_words(on)[10] == seq![text::utf8("--locked"@)],
        option_words(on).update(10, Seq::empty()) == option_words(off),
{
    reveal(option_words);
    assert(option_words(on).update(10, Seq::empty()) =~= option_words(off));
}

} // verus!

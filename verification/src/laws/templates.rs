//! Templates: what placeholders are filled with.
use vstd::prelude::*;
use vstd::string::*;

use crate::laws::texts::replacing_goes_from_the_left;
use crate::providers::binstall::{rendered, TemplateView};
use crate::text::{occurs_at, replaced};

verus! {

/// The text holds no opening brace.
pub open spec fn is_plain(text: Seq<char>) -> bool {
    !text.contains('{')
}

/// No value holds an opening brace, so that none brings a placeholder in.
pub open spec fn values_are_plain(ctx: TemplateView) -> bool {
    &&& is_plain(ctx.name) && is_plain(ctx.version) && is_plain(ctx.target)
    &&& is_plain(ctx.archive_suffix) && is_plain(ctx.binary_ext) && is_plain(ctx.bin)
    &&& ctx.repo matches Some(repo) ==> is_plain(repo)
}

/// What stands in front of the first occurrence stays as it is.
proof fn front_stays(front: Seq<char>, tail: Seq<char>, pattern: Seq<char>, with: Seq<char>)
    requires
        pattern.len() > 0,
        forall|i: int| 0 <= i < front.len() ==> !occurs_at(front + tail, pattern, i),
    ensures
        replaced(front + tail, pattern, with) == front + replaced(tail, pattern, with),
    decreases front.len(),
{
    let text = front + tail;
    if front.len() == 0 {
        assert(text =~= tail);
        assert(front + replaced(tail, pattern, with) =~= replaced(tail, pattern, with));
    } else {
        let rest = front.skip(1);
        assert(!occurs_at(text, pattern, 0));
        assert(text.skip(1) =~= rest + tail);
        assert forall|i: int| 0 <= i < rest.len() implies !occurs_at(rest + tail, pattern, i) by {
            if occurs_at(rest + tail, pattern, i) {
                assert(text.subrange(i + 1, i + 1 + pattern.len()) =~= (rest + tail).subrange(
                    i,
                    i + pattern.len(),
                ));
                assert(occurs_at(text, pattern, i + 1));
            }
        }
        front_stays(rest, tail, pattern, with);
        assert(seq![text[0]] + (rest + replaced(tail, pattern, with)) =~= front + replaced(
            tail,
            pattern,
            with,
        ));
        if text.len() < pattern.len() {
            assert(replaced(tail, pattern, with) == tail);
        }
    }
}

proof fn plain_front_stays(front: Seq<char>, tail: Seq<char>, pattern: Seq<char>, with: Seq<char>)
    requires
        is_plain(front),
        pattern.len() > 0 && pattern[0] == '{',
    ensures
        replaced(front + tail, pattern, with) == front + replaced(tail, pattern, with),
{
    assert forall|i: int| 0 <= i < front.len() implies !occurs_at(front + tail, pattern, i) by {
        if occurs_at(front + tail, pattern, i) {
            assert((front + tail).subrange(i, i + pattern.len())[0] == front[i]);
            assert(front.contains(front[i]));
        }
    }
    front_stays(front, tail, pattern, with);
}

proof fn others_stay(
    head: Seq<char>,
    placeholder: Seq<char>,
    tail: Seq<char>,
    pattern: Seq<char>,
    with: Seq<char>,
    d: int,
)
    requires
        is_plain(head),
        placeholder.len() > 0 && placeholder[0] == '{' && is_plain(placeholder.skip(1)),
        pattern.len() > 0 && pattern[0] == '{',
        0 < d < placeholder.len() && d < pattern.len(),
        placeholder[d] != pattern[d],
    ensures
        replaced(head + placeholder + tail, pattern, with) == head + placeholder + replaced(
            tail,
            pattern,
            with,
        ),
{
    let front = head + placeholder;
    let text = front + tail;
    let n = head.len() as int;
    assert forall|i: int| 0 <= i < front.len() implies !occurs_at(text, pattern, i) by {
        if occurs_at(text, pattern, i) {
            assert(text.subrange(i, i + pattern.len())[0] == text[i]);
            assert(text[i] == '{');
            if i < n {
                assert(head.contains(head[i]));
            } else if i > n {
                assert(placeholder.skip(1).contains(placeholder.skip(1)[i - n - 1]));
            } else {
                assert(text.subrange(i, i + pattern.len())[d] == text[i + d]);
                assert(text[i + d] == placeholder[d]);
            }
        }
    }
    front_stays(front, tail, pattern, with);
}

proof fn own_is_filled(head: Seq<char>, placeholder: Seq<char>, tail: Seq<char>, value: Seq<char>)
    requires
        is_plain(head) && is_plain(value),
        placeholder.len() > 0 && placeholder[0] == '{',
    ensures
        replaced(head + placeholder + tail, placeholder, value) == head + value + replaced(
            tail,
            placeholder,
            value,
        ),
        is_plain(head + value),
{
    assert forall|i: int| 0 <= i < head.len() implies !occurs_at(
        head + placeholder + tail,
        placeholder,
        i,
    ) by {
        if occurs_at(head + placeholder + tail, placeholder, i) {
            assert((head + placeholder + tail).subrange(i, i + placeholder.len())[0] == head[i]);
            assert(head.contains(head[i]));
        }
    }
    replacing_goes_from_the_left(head, placeholder, tail, value);
    let text = head + value;
    assert forall|i: int| 0 <= i < text.len() implies text[i] != '{' by {
        if i < head.len() {
            assert(head.contains(head[i]));
        } else {
            assert(value.contains(value[i - head.len()]));
        }
    }
}

/// `{ name }` stands for the name of the crate, wherever it stands and whatever follows.
pub proof fn name_is_filled_in(head: Seq<char>, tail: Seq<char>, ctx: TemplateView)
    requires
        is_plain(head),
        values_are_plain(ctx),
    ensures
        rendered(head + "{ name }"@ + tail, ctx) == head + ctx.name + rendered(tail, ctx),
{
    reveal_strlit("{ name }");
    reveal_strlit("{ version }");
    reveal_strlit("{ target }");
    reveal_strlit("{ archive-suffix }");
    reveal_strlit("{ binary-ext }");
    reveal_strlit("{ bin }");
    reveal_strlit("{ repo }");
    assert(is_plain("{ name }"@.skip(1)));
    let t0 = tail;
    own_is_filled(head, "{ name }"@, t0, ctx.name);
    let done = head + ctx.name;
    let t1 = replaced(t0, "{ name }"@, ctx.name);
    plain_front_stays(done, t1, "{ version }"@, ctx.version);
    let t2 = replaced(t1, "{ version }"@, ctx.version);
    plain_front_stays(done, t2, "{ target }"@, ctx.target);
    let t3 = replaced(t2, "{ target }"@, ctx.target);
    plain_front_stays(done, t3, "{ archive-suffix }"@, ctx.archive_suffix);
    let t4 = replaced(t3, "{ archive-suffix }"@, ctx.archive_suffix);
    plain_front_stays(done, t4, "{ binary-ext }"@, ctx.binary_ext);
    let t5 = replaced(t4, "{ binary-ext }"@, ctx.binary_ext);
    plain_front_stays(done, t5, "{ bin }"@, ctx.bin);
    let t6 = replaced(t5, "{ bin }"@, ctx.bin);
    if ctx.repo is Some {
        plain_front_stays(done, t6, "{ repo }"@, ctx.repo->Some_0);
    }
}

/// `{ version }` stands for its version, wherever it stands and whatever follows.
pub proof fn version_is_filled_in(head: Seq<char>, tail: Seq<char>, ctx: TemplateView)
    requires
        is_plain(head),
        values_are_plain(ctx),
    ensures
        rendered(head + "{ version }"@ + tail, ctx) == head + ctx.version + rendered(tail, ctx),
{
    reveal_strlit("{ name }");
    reveal_strlit("{ version }");
    reveal_strlit("{ target }");
    reveal_strlit("{ archive-suffix }");
    reveal_strlit("{ binary-ext }");
    reveal_strlit("{ bin }");
    reveal_strlit("{ repo }");
    assert(is_plain("{ version }"@.skip(1)));
    let t0 = tail;
    others_stay(head, "{ version }"@, t0, "{ name }"@, ctx.name, 2);
    let t1 = replaced(t0, "{ name }"@, ctx.name);
    own_is_filled(head, "{ version }"@, t1, ctx.version);
    let done = head + ctx.version;
    let t2 = replaced(t1, "{ version }"@, ctx.version);
    plain_front_stays(done, t2, "{ target }"@, ctx.target);
    let t3 = replaced(t2, "{ target }"@, ctx.target);
    plain_front_stays(done, t3, "{ archive-suffix }"@, ctx.archive_suffix);
    let t4 = replaced(t3, "{ archive-suffix }"@, ctx.archive_suffix);
    plain_front_stays(done, t4, "{ binary-ext }"@, ctx.binary_ext);
    let t5 = replaced(t4, "{ binary-ext }"@, ctx.binary_ext);
    plain_front_stays(done, t5, "{ bin }"@, ctx.bin);
    let t6 = replaced(t5, "{ bin }"@, ctx.bin);
    if ctx.repo is Some {
        plain_front_stays(done, t6, "{ repo }"@, ctx.repo->Some_0);
    }
}

/// `{ target }` stands for the platform, wherever it stands and whatever follows.
pub proof fn target_is_filled_in(head: Seq<char>, tail: Seq<char>, ctx: TemplateView)
    requires
        is_plain(head),
        values_are_plain(ctx),
    ensures
        rendered(head + "{ target }"@ + tail, ctx) == head + ctx.target + rendered(tail, ctx),
{
    reveal_strlit("{ name }");
    reveal_strlit("{ version }");
    reveal_strlit("{ target }");
    reveal_strlit("{ archive-suffix }");
    reveal_strlit("{ binary-ext }");
    reveal_strlit("{ bin }");
    reveal_strlit("{ repo }");
    assert(is_plain("{ target }"@.skip(1)));
    let t0 = tail;
    others_stay(head, "{ target }"@, t0, "{ name }"@, ctx.name, 2);
    let t1 = replaced(t0, "{ name }"@, ctx.name);
    others_stay(head, "{ target }"@, t1, "{ version }"@, ctx.version, 2);
    let t2 = replaced(t1, "{ version }"@, ctx.version);
    own_is_filled(head, "{ target }"@, t2, ctx.target);
    let done = head + ctx.target;
    let t3 = replaced(t2, "{ target }"@, ctx.target);
    plain_front_stays(done, t3, "{ archive-suffix }"@, ctx.archive_suffix);
    let t4 = replaced(t3, "{ archive-suffix }"@, ctx.archive_suffix);
    plain_front_stays(done, t4, "{ binary-ext }"@, ctx.binary_ext);
    let t5 = replaced(t4, "{ binary-ext }"@, ctx.binary_ext);
    plain_front_stays(done, t5, "{ bin }"@, ctx.bin);
    let t6 = replaced(t5, "{ bin }"@, ctx.bin);
    if ctx.repo is Some {
        plain_front_stays(done, t6, "{ repo }"@, ctx.repo->Some_0);
    }
}

/// `{ archive-suffix }` stands for the suffix of the archive, wherever it stands and whatever follows.
pub proof fn archive_suffix_is_filled_in(head: Seq<char>, tail: Seq<char>, ctx: TemplateView)
    requires
        is_plain(head),
        values_are_plain(ctx),
    ensures
        rendered(head + "{ archive-suffix }"@ + tail, ctx) == head + ctx.archive_suffix + rendered(tail, ctx),
{
    reveal_strlit("{ name }");
    reveal_strlit("{ version }");
    reveal_strlit("{ target }");
    reveal_strlit("{ archive-suffix }");
    reveal_strlit("{ binary-ext }");
    reveal_strlit("{ bin }");
    reveal_strlit("{ repo }");
    assert(is_plain("{ archive-suffix }"@.skip(1)));
    let t0 = tail;
    others_stay(head, "{ archive-suffix }"@, t0, "{ name }"@, ctx.name, 2);
    let t1 = replaced(t0, "{ name }"@, ctx.name);
    others_stay(head, "{ archive-suffix }"@, t1, "{ version }"@, ctx.version, 2);
    let t2 = replaced(t1, "{ version }"@, ctx.version);
    others_stay(head, "{ archive-suffix }"@, t2, "{ target }"@, ctx.target, 2);
    let t3 = replaced(t2, "{ target }"@, ctx.target);
    own_is_filled(head, "{ archive-suffix }"@, t3, ctx.archive_suffix);
    let done = head + ctx.archive_suffix;
    let t4 = replaced(t3, "{ archive-suffix }"@, ctx.archive_suffix);
    plain_front_stays(done, t4, "{ binary-ext }"@, ctx.binary_ext);
    let t5 = replaced(t4, "{ binary-ext }"@, ctx.binary_ext);
    plain_front_stays(done, t5, "{ bin }"@, ctx.bin);
    let t6 = replaced(t5, "{ bin }"@, ctx.bin);
    if ctx.repo is Some {
        plain_front_stays(done, t6, "{ repo }"@, ctx.repo->Some_0);
    }
}

/// `{ binary-ext }` stands for the extension of binaries, wherever it stands and whatever follows.
pub proof fn binary_ext_is_filled_in(head: Seq<char>, tail: Seq<char>, ctx: TemplateView)
    requires
        is_plain(head),
        values_are_plain(ctx),
    ensures
        rendered(head + "{ binary-ext }"@ + tail, ctx) == head + ctx.binary_ext + rendered(tail, ctx),
{
    reveal_strlit("{ name }");
    reveal_strlit("{ version }");
    reveal_strlit("{ target }");
    reveal_strlit("{ archive-suffix }");
    reveal_strlit("{ binary-ext }");
    reveal_strlit("{ bin }");
    reveal_strlit("{ repo }");
    assert(is_plain("{ binary-ext }"@.skip(1)));
    let t0 = tail;
    others_stay(head, "{ binary-ext }"@, t0, "{ name }"@, ctx.name, 2);
    let t1 = replaced(t0, "{ name }"@, ctx.name);
    others_stay(head, "{ binary-ext }"@, t1, "{ version }"@, ctx.version, 2);
    let t2 = replaced(t1, "{ version }"@, ctx.version);
    others_stay(head, "{ binary-ext }"@, t2, "{ target }"@, ctx.target, 2);
    let t3 = replaced(t2, "{ target }"@, ctx.target);
    others_stay(head, "{ binary-ext }"@, t3, "{ archive-suffix }"@, ctx.archive_suffix, 2);
    let t4 = replaced(t3, "{ archive-suffix }"@, ctx.archive_suffix);
    own_is_filled(head, "{ binary-ext }"@, t4, ctx.binary_ext);
    let done = head + ctx.binary_ext;
    let t5 = replaced(t4, "{ binary-ext }"@, ctx.binary_ext);
    plain_front_stays(done, t5, "{ bin }"@, ctx.bin);
    let t6 = replaced(t5, "{ bin }"@, ctx.bin);
    if ctx.repo is Some {
        plain_front_stays(done, t6, "{ repo }"@, ctx.repo->Some_0);
    }
}

/// `{ bin }` stands for the name of the binary, wherever it stands and whatever follows.
pub proof fn bin_is_filled_in(head: Seq<char>, tail: Seq<char>, ctx: TemplateView)
    requires
        is_plain(head),
        values_are_plain(ctx),
    ensures
        rendered(head + "{ bin }"@ + tail, ctx) == head + ctx.bin + rendered(tail, ctx),
{
    reveal_strlit("{ name }");
    reveal_strlit("{ version }");
    reveal_strlit("{ target }");
    reveal_strlit("{ archive-suffix }");
    reveal_strlit("{ binary-ext }");
    reveal_strlit("{ bin }");
    reveal_strlit("{ repo }");
    assert(is_plain("{ bin }"@.skip(1)));
    let t0 = tail;
    others_stay(head, "{ bin }"@, t0, "{ name }"@, ctx.name, 2);
    let t1 = replaced(t0, "{ name }"@, ctx.name);
    others_stay(head, "{ bin }"@, t1, "{ version }"@, ctx.version, 2);
    let t2 = replaced(t1, "{ version }"@, ctx.version);
    others_stay(head, "{ bin }"@, t2, "{ target }"@, ctx.target, 2);
    let t3 = replaced(t2, "{ target }"@, ctx.target);
    others_stay(head, "{ bin }"@, t3, "{ archive-suffix }"@, ctx.archive_suffix, 2);
    let t4 = replaced(t3, "{ archive-suffix }"@, ctx.archive_suffix);
    others_stay(head, "{ bin }"@, t4, "{ binary-ext }"@, ctx.binary_ext, 5);
    let t5 = replaced(t4, "{ binary-ext }"@, ctx.binary_ext);
    own_is_filled(head, "{ bin }"@, t5, ctx.bin);
    let done = head + ctx.bin;
    let t6 = replaced(t5, "{ bin }"@, ctx.bin);
    if ctx.repo is Some {
        plain_front_stays(done, t6, "{ repo }"@, ctx.repo->Some_0);
    }
}

/// `{ repo }` stands for the URL of the repository, wherever it stands and whatever follows.
pub proof fn repo_is_filled_in(head: Seq<char>, tail: Seq<char>, ctx: TemplateView)
    requires
        is_plain(head),
        values_are_plain(ctx),
        ctx.repo is Some,
    ensures
        rendered(head + "{ repo }"@ + tail, ctx) == head + ctx.repo->Some_0 + rendered(tail, ctx),
{
    reveal_strlit("{ name }");
    reveal_strlit("{ version }");
    reveal_strlit("{ target }");
    reveal_strlit("{ archive-suffix }");
    reveal_strlit("{ binary-ext }");
    reveal_strlit("{ bin }");
    reveal_strlit("{ repo }");
    assert(is_plain("{ repo }"@.skip(1)));
    let t0 = tail;
    others_stay(head, "{ repo }"@, t0, "{ name }"@, ctx.name, 2);
    let t1 = replaced(t0, "{ name }"@, ctx.name);
    others_stay(head, "{ repo }"@, t1, "{ version }"@, ctx.version, 2);
    let t2 = replaced(t1, "{ version }"@, ctx.version);
    others_stay(head, "{ repo }"@, t2, "{ target }"@, ctx.target, 2);
    let t3 = replaced(t2, "{ target }"@, ctx.target);
    others_stay(head, "{ repo }"@, t3, "{ archive-suffix }"@, ctx.archive_suffix, 2);
    let t4 = replaced(t3, "{ archive-suffix }"@, ctx.archive_suffix);
    others_stay(head, "{ repo }"@, t4, "{ binary-ext }"@, ctx.binary_ext, 2);
    let t5 = replaced(t4, "{ binary-ext }"@, ctx.binary_ext);
    others_stay(head, "{ repo }"@, t5, "{ bin }"@, ctx.bin, 2);
    let t6 = replaced(t5, "{ bin }"@, ctx.bin);
    own_is_filled(head, "{ repo }"@, t6, ctx.repo->Some_0);
    let done = head + ctx.repo->Some_0;
}

/// A template without placeholders is filled in as it stands.
pub proof fn nothing_is_filled_in(text: Seq<char>, ctx: TemplateView)
    requires
        is_plain(text),
    ensures
        rendered(text, ctx) == text,
{
    reveal_strlit("{ name }");
    reveal_strlit("{ version }");
    reveal_strlit("{ target }");
    reveal_strlit("{ archive-suffix }");
    reveal_strlit("{ binary-ext }");
    reveal_strlit("{ bin }");
    reveal_strlit("{ repo }");
    let none = Seq::<char>::empty();
    assert(text + none =~= text);
    plain_front_stays(text, none, "{ name }"@, ctx.name);
    plain_front_stays(text, none, "{ version }"@, ctx.version);
    plain_front_stays(text, none, "{ target }"@, ctx.target);
    plain_front_stays(text, none, "{ archive-suffix }"@, ctx.archive_suffix);
    plain_front_stays(text, none, "{ binary-ext }"@, ctx.binary_ext);
    plain_front_stays(text, none, "{ bin }"@, ctx.bin);
    if ctx.repo is Some {
        plain_front_stays(text, none, "{ repo }"@, ctx.repo->Some_0);
    }
    assert(text + none =~= text);
}

}

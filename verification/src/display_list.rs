//! The painting boundary: walks a finished fragment tree in paint order,
//! appending plain display items to an external sink and reporting whether
//! any visible content was painted.
//!
//! Geometry is converted from each fragment's flow-relative rectangle to
//! physical coordinates relative to an accumulated physical containing
//! rectangle.  The conversion exists only for the horizontal-top-to-bottom,
//! left-to-right configuration; any other mode surfaces as an explicit
//! [`UnsupportedConfiguration`] error.

use vstd::prelude::*;

use crate::fragments::{BoxFragment, Fragment};
use crate::geom::{
    physical, spec_rect_conversion_supported, spec_rect_to_physical, spec_translate,
    UnsupportedConfiguration,
};
use crate::length::Length;

verus! {

/// One paint command, in absolute physical coordinates.
pub enum DisplayItem {
    /// A painted background covering a border box.
    Background { rect: physical::Rect<Length> },
    /// A painted border around a border box.
    Border { rect: physical::Rect<Length> },
    /// A decoded image covering a content box.
    Image { rect: physical::Rect<Length>, image_key: u64 },
    /// A shaped glyph run.
    Text { rect: physical::Rect<Length>, font_key: u64, ascent: Length, glyphs: Vec<u64> },
}

/// An append-only display-list sink: the paint consumer drains the
/// accumulated items.
pub struct DisplayListBuilder {
    pub items: Vec<DisplayItem>,
}

impl DisplayListBuilder {
    /// An empty sink.
    pub fn new() -> (r: DisplayListBuilder)
        ensures
            r.items@.len() == 0,
    {
        DisplayListBuilder { items: Vec::new() }
    }
}

/// Whether the walk painted anything visible.
#[derive(Clone, Copy, Debug, PartialEq, Eq, Structural)]
pub struct IsContentful(pub bool);

/// Whether every rectangle in this fragment's subtree can be converted to
/// physical coordinates: each box's own writing mode and direction must be
/// the supported configuration.
pub open spec fn spec_fragment_convertible(f: Fragment) -> bool
    decreases f, 0nat,
{
    match f {
        Fragment::Box(bf) => spec_rect_conversion_supported(bf.style.spec_mode())
            && spec_frags_convertible(bf.children@),
        Fragment::Anonymous(af) => spec_rect_conversion_supported(af.mode)
            && spec_frags_convertible(af.children@),
        Fragment::Text(tf) => spec_rect_conversion_supported(tf.parent_style.spec_mode()),
        Fragment::Image(imf) => spec_rect_conversion_supported(imf.style.spec_mode()),
    }
}

/// [`spec_fragment_convertible`] over a fragment list.
pub open spec fn spec_frags_convertible(s: Seq<Fragment>) -> bool
    decreases s, 1nat,
{
    if s.len() == 0 {
        true
    } else {
        spec_frags_convertible(s.drop_last()) && spec_fragment_convertible(s.last())
    }
}

/// Whether this fragment's subtree holds visible content: a text or image
/// fragment, or a box fragment with non-empty visible decoration.
pub open spec fn spec_fragment_contentful(f: Fragment) -> bool
    decreases f, 0nat,
{
    match f {
        Fragment::Box(bf) => bf.spec_has_visible_decoration() || spec_frags_contentful(
            bf.children@,
        ),
        Fragment::Anonymous(af) => spec_frags_contentful(af.children@),
        Fragment::Text(_) => true,
        Fragment::Image(_) => true,
    }
}

/// [`spec_fragment_contentful`] over a fragment list.
pub open spec fn spec_frags_contentful(s: Seq<Fragment>) -> bool
    decreases s, 1nat,
{
    if s.len() == 0 {
        false
    } else {
        spec_frags_contentful(s.drop_last()) || spec_fragment_contentful(s.last())
    }
}


/// The display items a box fragment paints for itself: its background if
/// visible, then its border if any side is non-zero, both covering its
/// absolute border box.
pub open spec fn spec_own_box_items(bf: BoxFragment, border_rect: physical::Rect<Length>) -> Seq<DisplayItem> {
    let background: Seq<DisplayItem> = if bf.style.background_is_visible {
        Seq::empty().push(DisplayItem::Background { rect: border_rect })
    } else {
        Seq::empty()
    };
    let border: Seq<DisplayItem> = if bf.border.inline_start != 0 || bf.border.inline_end != 0
        || bf.border.block_start != 0 || bf.border.block_end != 0 {
        Seq::empty().push(DisplayItem::Border { rect: border_rect })
    } else {
        Seq::empty()
    };
    background + border
}

/// How many display items painting one fragment appends.
pub open spec fn spec_fragment_item_count(f: Fragment) -> nat
    decreases f, 2nat,
{
    match f {
        Fragment::Box(bf) => {
            let own: nat = (if bf.style.background_is_visible {
                1nat
            } else {
                0nat
            }) + (if bf.border.inline_start != 0 || bf.border.inline_end != 0
                || bf.border.block_start != 0 || bf.border.block_end != 0 {
                1nat
            } else {
                0nat
            });
            own + spec_frags_item_count(bf.children@)
        },
        Fragment::Anonymous(af) => spec_frags_item_count(af.children@),
        Fragment::Text(_) => 1,
        Fragment::Image(_) => 1,
    }
}

/// [`spec_fragment_item_count`] over a fragment list.
pub open spec fn spec_frags_item_count(s: Seq<Fragment>) -> nat
    decreases s, 3nat,
{
    if s.len() == 0 {
        0
    } else {
        spec_frags_item_count(s.drop_last()) + spec_fragment_item_count(s.last())
    }
}

/// Whether `items` is exactly what painting `f` against the absolute
/// containing rectangle `cb` appends, in paint order: the fragment's own
/// decoration or paint primitive first, then its children against its
/// absolute content box.
pub open spec fn spec_fragment_items(
    f: Fragment,
    cb: physical::Rect<Length>,
    items: Seq<DisplayItem>,
) -> bool
    decreases f, 2nat,
{
    match f {
        Fragment::Box(bf) => {
            let mode = bf.style.spec_mode();
            let border_rect = spec_translate(
                spec_rect_to_physical(bf.spec_border_rect(), mode)->Ok_0,
                cb.top_left,
            );
            let content_rect = spec_translate(
                spec_rect_to_physical(bf.content_rect, mode)->Ok_0,
                cb.top_left,
            );
            let own = spec_own_box_items(bf, border_rect);
            &&& items.len() >= own.len()
            &&& items.take(own.len() as int) == own
            &&& spec_frags_items(bf.children@, content_rect, items.skip(own.len() as int))
        },
        Fragment::Anonymous(af) => {
            let rect = spec_translate(
                spec_rect_to_physical(af.rect, af.mode)->Ok_0,
                cb.top_left,
            );
            spec_frags_items(af.children@, rect, items)
        },
        Fragment::Text(tf) => {
            let rect = spec_translate(
                spec_rect_to_physical(tf.content_rect, tf.parent_style.spec_mode())->Ok_0,
                cb.top_left,
            );
            &&& items.len() == 1
            &&& items[0] matches DisplayItem::Text { rect: r, font_key, ascent, glyphs }
                && r == rect && font_key == tf.font_key && ascent == tf.ascent
                && glyphs@ == tf.glyphs@
        },
        Fragment::Image(imf) => {
            let rect = spec_translate(
                spec_rect_to_physical(imf.content_rect, imf.style.spec_mode())->Ok_0,
                cb.top_left,
            );
            items =~= Seq::empty().push(DisplayItem::Image { rect, image_key: imf.image_key })
        },
    }
}

/// [`spec_fragment_items`] over a fragment list, in order.
pub open spec fn spec_frags_items(
    s: Seq<Fragment>,
    cb: physical::Rect<Length>,
    items: Seq<DisplayItem>,
) -> bool
    decreases s, 3nat,
{
    if s.len() == 0 {
        items.len() == 0
    } else {
        let c = spec_fragment_item_count(s.last());
        &&& items.len() >= c
        &&& spec_frags_items(s.drop_last(), cb, items.take(items.len() - c))
        &&& spec_fragment_items(s.last(), cb, items.skip(items.len() - c))
    }
}

/// A prefix of a prefix is a prefix.
proof fn lemma_take_chain(a: Seq<DisplayItem>, b: Seq<DisplayItem>, c: Seq<DisplayItem>)
    requires
        c.len() <= b.len() <= a.len(),
        a.take(b.len() as int) == b,
        b.take(c.len() as int) == c,
    ensures
        a.take(c.len() as int) == c,
{
    assert forall|j: int| 0 <= j < c.len() implies a.take(c.len() as int)[j] == c[j] by {
        assert(a.take(b.len() as int)[j] == a[j]);
        assert(b.take(c.len() as int)[j] == b[j]);
    };
    assert(a.take(c.len() as int) =~= c);
}

/// Appending one fragment's items extends the list relation.
proof fn lemma_frags_items_push(
    s: Seq<Fragment>,
    f: Fragment,
    cb: physical::Rect<Length>,
    items: Seq<DisplayItem>,
    chunk: Seq<DisplayItem>,
)
    requires
        spec_frags_items(s, cb, items),
        spec_fragment_items(f, cb, chunk),
        chunk.len() == spec_fragment_item_count(f),
    ensures
        spec_frags_items(s.push(f), cb, items + chunk),
{
    let combined = items + chunk;
    assert(s.push(f).drop_last() =~= s);
    assert(s.push(f).last() == f);
    assert(combined.take(combined.len() - chunk.len()) =~= items);
    assert(combined.skip(combined.len() - chunk.len()) =~= chunk);
}

/// Extending a list extends its convertibility and contentfulness.
proof fn lemma_frags_push(s: Seq<Fragment>, f: Fragment)
    ensures
        spec_frags_convertible(s.push(f)) == (spec_frags_convertible(s)
            && spec_fragment_convertible(f)),
        spec_frags_contentful(s.push(f)) == (spec_frags_contentful(s)
            || spec_fragment_contentful(f)),
        spec_frags_item_count(s.push(f)) == spec_frags_item_count(s) + spec_fragment_item_count(f),
{
    assert(s.push(f).drop_last() =~= s);
    assert(s.push(f).last() == f);
}

impl Fragment {
    /// Walks this fragment in paint order: its own decoration or paint
    /// primitive first, then its children, recursing with its content box
    /// as their containing rectangle.  Sets the contentful flag for text,
    /// images and visibly decorated boxes.  Fails, leaving the sink
    /// partially extended, exactly when some rectangle in the subtree is in
    /// an unsupported writing mode.
    pub fn build_display_list(
        &self,
        builder: &mut DisplayListBuilder,
        is_contentful: &mut IsContentful,
        containing_block: &physical::Rect<Length>,
    ) -> (r: Result<(), UnsupportedConfiguration>)
        ensures
            r is Ok <==> spec_fragment_convertible(*self),
            r is Ok ==> final(is_contentful).0 == (old(is_contentful).0
                || spec_fragment_contentful(*self)),
            old(is_contentful).0 ==> final(is_contentful).0,
            final(builder).items@.len() >= old(builder).items@.len(),
            final(builder).items@.take(old(builder).items@.len() as int) == old(builder).items@,
            r is Ok ==> final(builder).items@.len() == old(builder).items@.len()
                + spec_fragment_item_count(*self) && spec_fragment_items(
                *self,
                *containing_block,
                final(builder).items@.skip(old(builder).items@.len() as int),
            ),
        decreases *self, 0nat,
    {
        let ghost base = builder.items@;
        match self {
            Fragment::Box(bf) => {
                let mode = bf.style.mode();
                let border_rect = match bf.border_rect().to_physical(mode) {
                    Ok(rect) => rect.translate(&containing_block.top_left),
                    Err(e) => {
                        return Err(e);
                    },
                };
                if bf.style.background_is_visible {
                    builder.items.push(DisplayItem::Background { rect: border_rect });
                }
                let has_border = bf.border.inline_start != 0 || bf.border.inline_end != 0
                    || bf.border.block_start != 0 || bf.border.block_end != 0;
                if has_border {
                    builder.items.push(DisplayItem::Border { rect: border_rect });
                }
                if bf.has_visible_decoration() {
                    is_contentful.0 = true;
                }
                proof {
                    let own = spec_own_box_items(*bf, border_rect);
                    assert(builder.items@ =~= base + own);
                    assert((base + own).take(base.len() as int) =~= base);
                }
                let content_rect = match bf.content_rect.to_physical(mode) {
                    Ok(rect) => rect.translate(&containing_block.top_left),
                    Err(e) => {
                        return Err(e);
                    },
                };
                proof {
                    assert(decreases_to!(*self => (*self)->Box_0));
                    assert((*self)->Box_0 == *bf);
                }
                let ghost mid = builder.items@;
                let r = build_children_display_list(
                    &bf.children,
                    builder,
                    is_contentful,
                    &content_rect,
                );
                proof {
                    let own = spec_own_box_items(*bf, border_rect);
                    lemma_take_chain(builder.items@, mid, base);
                    if r is Ok {
                        let appended = builder.items@.skip(base.len() as int);
                        assert forall|j: int|
                            0 <= j < own.len() implies appended.take(own.len() as int)[j] == own[j]
                        by {
                            assert(appended[j] == builder.items@[base.len() + j]);
                            assert(builder.items@.take(mid.len() as int)[base.len() + j]
                                == builder.items@[base.len() + j]);
                            assert(mid[base.len() + j] == (base + own)[base.len() + j]);
                        };
                        assert(appended.take(own.len() as int) =~= own);
                        assert(appended.skip(own.len() as int) =~= builder.items@.skip(
                            mid.len() as int,
                        ));
                    }
                }
                r
            },
            Fragment::Anonymous(af) => {
                let rect = match af.rect.to_physical(af.mode) {
                    Ok(rect) => rect.translate(&containing_block.top_left),
                    Err(e) => {
                        return Err(e);
                    },
                };
                proof {
                    assert(decreases_to!(*self => (*self)->Anonymous_0));
                    assert((*self)->Anonymous_0 == *af);
                }
                build_children_display_list(&af.children, builder, is_contentful, &rect)
            },
            Fragment::Text(tf) => {
                let mode = tf.parent_style.mode();
                match tf.content_rect.to_physical(mode) {
                    Ok(rect) => {
                        let abs_rect = rect.translate(&containing_block.top_left);
                        builder.items.push(
                            DisplayItem::Text {
                                rect: abs_rect,
                                font_key: tf.font_key,
                                ascent: tf.ascent,
                                glyphs: tf.glyphs.clone(),
                            },
                        );
                        is_contentful.0 = true;
                        proof {
                            assert(builder.items@.take(base.len() as int) =~= base);
                            assert(builder.items@.skip(base.len() as int) =~= Seq::empty().push(
                                builder.items@.last(),
                            ));
                        }
                        Ok(())
                    },
                    Err(e) => Err(e),
                }
            },
            Fragment::Image(imf) => {
                let mode = imf.style.mode();
                match imf.content_rect.to_physical(mode) {
                    Ok(rect) => {
                        let abs_rect = rect.translate(&containing_block.top_left);
                        builder.items.push(
                            DisplayItem::Image { rect: abs_rect, image_key: imf.image_key },
                        );
                        is_contentful.0 = true;
                        proof {
                            assert(builder.items@.take(base.len() as int) =~= base);
                            assert(builder.items@.skip(base.len() as int) =~= Seq::empty().push(
                                DisplayItem::Image { rect: abs_rect, image_key: imf.image_key },
                            ));
                        }
                        Ok(())
                    },
                    Err(e) => Err(e),
                }
            },
        }
    }
}

/// Walks a fragment list in order, stopping at the first fragment in an
/// unsupported writing mode.
pub(crate) fn build_children_display_list(
    children: &Vec<Fragment>,
    builder: &mut DisplayListBuilder,
    is_contentful: &mut IsContentful,
    containing_block: &physical::Rect<Length>,
) -> (r: Result<(), UnsupportedConfiguration>)
    ensures
        r is Ok <==> spec_frags_convertible(children@),
        r is Ok ==> final(is_contentful).0 == (old(is_contentful).0 || spec_frags_contentful(
            children@,
        )),
        old(is_contentful).0 ==> final(is_contentful).0,
        final(builder).items@.len() >= old(builder).items@.len(),
        final(builder).items@.take(old(builder).items@.len() as int) == old(builder).items@,
        r is Ok ==> final(builder).items@.len() == old(builder).items@.len()
            + spec_frags_item_count(children@) && spec_frags_items(
            children@,
            *containing_block,
            final(builder).items@.skip(old(builder).items@.len() as int),
        ),
    decreases children@, 1nat,
{
    let ghost base = builder.items@;
    let mut i: usize = 0;
    proof {
        assert(children@.subrange(0, 0) =~= Seq::<Fragment>::empty());
        assert(builder.items@.skip(base.len() as int) =~= Seq::<DisplayItem>::empty());
        assert(builder.items@.take(base.len() as int) =~= base);
    }
    while i < children.len()
        invariant
            0 <= i <= children@.len(),
            base == old(builder).items@,
            spec_frags_convertible(children@.subrange(0, i as int)),
            is_contentful.0 == (old(is_contentful).0 || spec_frags_contentful(
                children@.subrange(0, i as int),
            )),
            builder.items@.len() == base.len() + spec_frags_item_count(
                children@.subrange(0, i as int),
            ),
            builder.items@.take(base.len() as int) == base,
            spec_frags_items(
                children@.subrange(0, i as int),
                *containing_block,
                builder.items@.skip(base.len() as int),
            ),
        decreases children@.len() - i,
    {
        let ghost prefix = children@.subrange(0, i as int);
        proof {
            assert(prefix.push(children@[i as int]) =~= children@.subrange(0, i as int + 1));
            lemma_frags_push(prefix, children@[i as int]);
            assert(decreases_to!(children@ => children@[i as int]));
        }
        let child = &children[i];
        let ghost mid = builder.items@;
        match child.build_display_list(builder, is_contentful, containing_block) {
            Ok(()) => {
                proof {
                    let chunk = builder.items@.skip(mid.len() as int);
                    lemma_take_chain(builder.items@, mid, base);
                    assert forall|j: int|
                        0 <= j < builder.items@.len() - base.len() implies (mid.skip(
                            base.len() as int,
                        ) + chunk)[j] == builder.items@.skip(base.len() as int)[j]
                    by {
                        if j < mid.len() - base.len() {
                            assert(builder.items@.take(mid.len() as int)[base.len() + j]
                                == builder.items@[base.len() + j]);
                        }
                    };
                    assert(mid.skip(base.len() as int) + chunk =~= builder.items@.skip(
                        base.len() as int,
                    ));
                    lemma_frags_items_push(
                        prefix,
                        children@[i as int],
                        *containing_block,
                        mid.skip(base.len() as int),
                        chunk,
                    );
                }
            },
            Err(e) => {
                proof {
                    lemma_frags_convertible_prefix_false(children@, i as int);
                    lemma_take_chain(builder.items@, mid, base);
                }
                return Err(e);
            },
        }
        i += 1;
    }
    proof {
        assert(children@.subrange(0, children@.len() as int) =~= children@);
    }
    Ok(())
}

/// A list with one unconvertible fragment is unconvertible.
proof fn lemma_frags_convertible_prefix_false(s: Seq<Fragment>, i: int)
    requires
        0 <= i < s.len(),
        !spec_fragment_convertible(s[i]),
    ensures
        !spec_frags_convertible(s),
    decreases s.len(),
{
    if s.len() > 0 {
        if i == s.len() - 1 {
            assert(s.last() == s[i]);
        } else {
            lemma_frags_convertible_prefix_false(s.drop_last(), i);
        }
    }
}

} // verus!

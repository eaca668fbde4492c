//! A menu screen: a title, up to five items per page, a `>` marker before the
//! selected item and, when the items fill more than one page, the page number.
use vstd::prelude::*;
use epd_waveshare::epd2in9bc::Display2in9bc;
use crate::display::{
    display_buffer, display_rotation, draw_all, keeps_outside, all_fit, draw_fits, fits, text_draw, TextDraw,
    draw_next,
};
use crate::text::{decimal, push_char, push_decimal, lemma_three_digits, trunc_div, trunc_rem};

verus! {

pub const MARGIN_TOP: i32 = 16;
pub const MARGIN_LEFT: i32 = 4;
pub const FONT_WIDTH: i32 = 8;
pub const INTERLINE: i32 = 16;
/// Items shown on one page.
pub const PAGE_SIZE: usize = 5;
/// Room for the page number text, `"{page}/{pages}"`.
pub const PAGE_LABEL_CAPACITY: usize = 5;

pub open spec fn str_views(items: Seq<&str>) -> Seq<Seq<char>> {
    items.map_values(|s: &str| s@)
}

/// The page that the selection is on (only used when there is more than one page).
pub open spec fn menu_page(selected: int) -> int {
    trunc_div(selected, PAGE_SIZE as int)
}

/// The number of pages that `len` items fill, at least one.
pub open spec fn page_count(len: nat) -> nat {
    ((len - 1) / 5 + 1) as nat
}

/// `"{page + 1}/{pages}"`.
pub open spec fn page_label(page: nat, len: nat) -> Seq<char> {
    decimal(page + 1) + seq!['/'] + decimal(page_count(len))
}

/// Row `i` of the items, from the first line under the title.
pub open spec fn row_y(i: int) -> int {
    MARGIN_TOP + (1 + i) * INTERLINE
}

pub open spec fn item_draws(items: Seq<Seq<char>>) -> Seq<TextDraw> {
    Seq::new(items.len(), |i: int| text_draw(items[i], MARGIN_LEFT + 3 * FONT_WIDTH, row_y(i)))
}

/// The `>` marker before row `row`.
pub open spec fn marker_draw(row: int) -> TextDraw {
    text_draw(">"@, MARGIN_LEFT + FONT_WIDTH, row_y(row))
}

/// The items shown on the page of the selection.
pub open spec fn shown_items(items: Seq<Seq<char>>, selected: int) -> Seq<Seq<char>> {
    if items.len() > PAGE_SIZE {
        let first = menu_page(selected) * 5;
        let end = if first + 5 < items.len() { first + 5 } else { items.len() as int };
        items.subrange(first, end)
    } else {
        items
    }
}

/// The row of the marker.
pub open spec fn marker_row(items: Seq<Seq<char>>, selected: int) -> int {
    if items.len() > PAGE_SIZE {
        trunc_rem(selected, PAGE_SIZE as int)
    } else {
        selected
    }
}

/// What the menu draws, in order: the title, the page number when there is more than
/// one page, the items of the page of the selection, and the marker.
pub open spec fn menu_draws(title: Seq<char>, items: Seq<Seq<char>>, selected: int) -> Seq<TextDraw> {
    let head = if items.len() > PAGE_SIZE {
        seq![
            text_draw(title, MARGIN_LEFT as int, MARGIN_TOP as int),
            text_draw(
                page_label(menu_page(selected) as nat, items.len()),
                295 - MARGIN_LEFT - 3 * FONT_WIDTH,
                MARGIN_TOP + 5 * INTERLINE,
            ),
        ]
    } else {
        seq![text_draw(title, MARGIN_LEFT as int, MARGIN_TOP as int)]
    };
    head + item_draws(shown_items(items, selected)) + seq![marker_draw(marker_row(items, selected))]
}

/// The inputs on which the menu is drawn without a panic: over several pages the
/// selection is on an existing page (a selection below -4 makes the page index wrap) and
/// the page number fits its five characters; on one page the marker row is an `i32`;
/// every text can be drawn.
pub open spec fn menu_ok(title: Seq<char>, items: Seq<Seq<char>>, selected: int) -> bool {
    &&& items.len() > PAGE_SIZE ==> {
        &&& 0 <= menu_page(selected)
        &&& menu_page(selected) * 5 <= items.len()
        &&& page_label(menu_page(selected) as nat, items.len()).len() <= PAGE_LABEL_CAPACITY
    }
    &&& items.len() <= PAGE_SIZE ==> {
        &&& selected + 1 <= i32::MAX
        &&& i32::MIN <= (selected + 1) * INTERLINE
        &&& MARGIN_TOP + (selected + 1) * INTERLINE <= i32::MAX
    }
    &&& all_fit(menu_draws(title, items, selected))
}

/// Draws a menu with `title` and `items`, the item at index `selected` marked.
/// Past five items the menu shows the page of five that holds the selection and,
/// at the right, `"{page}/{pages}"`.
pub fn render(title: &str, items: &[&str], selected: i32, display: &mut Display2in9bc)
    requires
        menu_ok(title@, str_views(items@), selected as int),
    ensures
        display_buffer(*final(display)) == draw_all(
            display_buffer(*old(display)),
            display_rotation(*old(display)),
            menu_draws(title@, str_views(items@), selected as int),
        ),
        display_rotation(*final(display)) == display_rotation(*old(display)),
{
    let ghost views = str_views(items@);
    let ghost all = menu_draws(title@, views, selected as int);
    let ghost b0 = display_buffer(*display);
    let ghost rot = display_rotation(*display);
    proof {
        assert(draw_fits(all[0]));
    }
    let ghost none: Seq<TextDraw> = seq![];
    render_str(title, MARGIN_LEFT, MARGIN_TOP, display, Ghost(b0), Ghost(none));
    let ghost mut done: Seq<TextDraw> = seq![text_draw(title@, MARGIN_LEFT as int, MARGIN_TOP as int)];
    assert(done =~= none.push(text_draw(title@, MARGIN_LEFT as int, MARGIN_TOP as int)));

    let len = items.len();
    let mut first: usize = 0;
    let mut end: usize = len;
    let mut row: i32 = selected;
    if len > PAGE_SIZE {
        let page: usize = if selected >= 0 { (selected / 5) as usize } else { 0 };
        row = if selected >= 0 { selected % 5 } else { selected };
        first = page * PAGE_SIZE;
        end = if len - first > PAGE_SIZE { first + PAGE_SIZE } else { len };

        let mut s = String::new();
        let pages: usize = (len - 1) / PAGE_SIZE + 1;
        proof {
            assert(decimal((page + 1) as nat).len() <= 3);
            lemma_three_digits((page + 1) as nat);
            assert(s@ =~= seq![]);
        }
        push_decimal(&mut s, (page + 1) as u64);
        push_char(&mut s, '/');
        push_decimal(&mut s, pages as u64);
        proof {
            assert(s@ =~= page_label(menu_page(selected as int) as nat, len as nat));
            assert(draw_fits(all[1]));
        }
        render_str(
            s.as_str(),
            295 - MARGIN_LEFT - 3 * FONT_WIDTH,
            MARGIN_TOP + 5 * INTERLINE,
            display,
            Ghost(b0),
            Ghost(done),
        );
        proof {
            done = done.push(text_draw(s@, 295 - MARGIN_LEFT - 3 * FONT_WIDTH, MARGIN_TOP + 5 * INTERLINE));
        }
    }
    let ghost head = done;
    let ghost shown = shown_items(views, selected as int);
    assert(shown =~= views.subrange(first as int, end as int));
    assert(all =~= head + item_draws(shown) + seq![marker_draw(row as int)]);

    let mut i: usize = first;
    while i < end
        invariant
            first <= i <= end <= len,
            len == items@.len(),
            end - first <= PAGE_SIZE,
            views == str_views(items@),
            shown == views.subrange(first as int, end as int),
            all == head + item_draws(shown) + seq![marker_draw(row as int)],
            all_fit(all),
            done == head + item_draws(shown).take(i - first),
            display_buffer(*display) == draw_all(b0, rot, done),
            display_rotation(*display) == rot,
        decreases end - i,
    {
        let ghost k = i - first;
        let y: i32 = MARGIN_TOP + (1 + (i - first) as i32) * INTERLINE;
        proof {
            assert(all[head.len() + k] == item_draws(shown)[k as int]);
            assert(draw_fits(all[head.len() + k]));
            assert(items@[i as int]@ == shown[k as int]);
        }
        render_str(items[i], MARGIN_LEFT + 3 * FONT_WIDTH, y, display, Ghost(b0), Ghost(done));
        proof {
            done = done.push(text_draw(items@[i as int]@, MARGIN_LEFT + 3 * FONT_WIDTH, y as int));
            assert(done =~= head + item_draws(shown).take(i + 1 - first));
        }
        i = i + 1;
    }
    proof {
        assert(item_draws(shown).take(end - first) =~= item_draws(shown));
        assert(all[all.len() - 1] == marker_draw(row as int));
        assert(draw_fits(all[all.len() - 1]));
    }
    render_str(">", MARGIN_LEFT + FONT_WIDTH, MARGIN_TOP + (row + 1) * INTERLINE, display, Ghost(b0), Ghost(done));
    proof {
        assert(done.push(marker_draw(row as int)) =~= all);
    }
}

fn render_str(
    s: &str,
    x: i32,
    y: i32,
    display: &mut Display2in9bc,
    Ghost(start): Ghost<Seq<u8>>,
    Ghost(done): Ghost<Seq<TextDraw>>,
)
    requires
        display_buffer(*old(display)) == draw_all(start, display_rotation(*old(display)), done),
        fits(s@, x as int, y as int, 8, 16),
    ensures
        display_buffer(*final(display)) == draw_all(
            start,
            display_rotation(*old(display)),
            done.push(text_draw(s@, x as int, y as int)),
        ),
        display_rotation(*final(display)) == display_rotation(*old(display)),
        keeps_outside(
            display_buffer(*old(display)),
            display_buffer(*final(display)),
            display_rotation(*old(display)),
            s@,
            x as int,
            y as int,
            8,
            16,
        ),
{
    draw_next(display, s, x, y, Ghost(start), Ghost(done));
}

} // verus!

//! Which Slides batch-update requests a command sends, in which order.

use vstd::prelude::*;
use vstd::string::*;
use crate::client::request::concat3;

verus! {

/// One request of the batch that adds a shape.
#[derive(Clone, Copy, PartialEq, Eq, Structural, Debug)]
pub enum ShapeStep {
    /// Create the shape.
    CreateShape,
    /// Insert its text.
    InsertText,
    /// Apply the font size and weight to the text.
    TextStyle,
    /// Fill the shape with the given color.
    Fill,
    /// Make the text white.
    WhiteText,
}

/// A fill is dark when its red, green and blue bytes sum to at most 382:
/// exactly the colors whose components, scaled to 0.0-1.0, sum to less than 1.5.
pub open spec fn is_dark(rgb: (u8, u8, u8)) -> bool {
    rgb.0 + rgb.1 + rgb.2 <= 382
}

/// The requests that add a shape: the shape; its text where there is one,
/// styled where a font size or bold is asked for; the fill where one is
/// given, and white text on a dark fill with text.
pub open spec fn shape_plan(has_text: bool, has_font_size: bool, bold: bool, fill: Option<(u8, u8, u8)>) -> Seq<ShapeStep> {
    seq![ShapeStep::CreateShape] + (if has_text {
        seq![ShapeStep::InsertText] + if has_font_size || bold {
            seq![ShapeStep::TextStyle]
        } else {
            Seq::empty()
        }
    } else {
        Seq::empty()
    }) + match fill {
        Some(rgb) => seq![ShapeStep::Fill] + if has_text && is_dark(rgb) {
            seq![ShapeStep::WhiteText]
        } else {
            Seq::empty()
        },
        None => Seq::empty(),
    }
}

/// Plans the requests of a shape.
pub fn shape_steps(has_text: bool, has_font_size: bool, bold: bool, fill: Option<(u8, u8, u8)>) -> (r: Vec<ShapeStep>)
    ensures
        r@ == shape_plan(has_text, has_font_size, bold, fill),
{
    let mut r: Vec<ShapeStep> = Vec::new();
    r.push(ShapeStep::CreateShape);
    if has_text {
        r.push(ShapeStep::InsertText);
        if has_font_size || bold {
            r.push(ShapeStep::TextStyle);
        }
    }
    match fill {
        Some((red, green, blue)) => {
            r.push(ShapeStep::Fill);
            if has_text && (red as u16) + (green as u16) + (blue as u16) <= 382 {
                r.push(ShapeStep::WhiteText);
            }
        },
        None => {},
    }
    assert(r@ =~= shape_plan(has_text, has_font_size, bold, fill));
    r
}

/// The text insertions that fill a table: one per non-empty cell, row by row,
/// with its row and column.
pub open spec fn row_inserts(r: int, row: Seq<String>) -> Seq<(u32, u32, Seq<char>)>
    decreases row.len(),
{
    if row.len() == 0 {
        Seq::empty()
    } else {
        let c = row.len() - 1;
        let rest = row_inserts(r, row.drop_last());
        if row.last()@.len() > 0 {
            rest.push((r as u32, c as u32, row.last()@))
        } else {
            rest
        }
    }
}

pub open spec fn table_inserts(data: Seq<Vec<String>>) -> Seq<(u32, u32, Seq<char>)>
    decreases data.len(),
{
    if data.len() == 0 {
        Seq::empty()
    } else {
        table_inserts(data.drop_last()) + row_inserts(data.len() - 1, data.last()@)
    }
}

pub open spec fn insert_views(v: Seq<(u32, u32, String)>) -> Seq<(u32, u32, Seq<char>)> {
    v.map_values(|e: (u32, u32, String)| (e.0, e.1, e.2@))
}

/// The cells of a table to fill: row, column and text of each non-empty cell.
pub fn table_cell_inserts(data: &Vec<Vec<String>>) -> (r: Vec<(u32, u32, String)>)
    ensures
        insert_views(r@) == table_inserts(data@),
{
    let mut r: Vec<(u32, u32, String)> = Vec::new();
    let mut i: usize = 0;
    while i < data.len()
        invariant
            i <= data@.len(),
            insert_views(r@) == table_inserts(data@.take(i as int)),
        decreases data@.len() - i,
    {
        assert(data@.take(i + 1).drop_last() =~= data@.take(i as int));
        let row = &data[i];
        let ghost base = insert_views(r@);
        let mut c: usize = 0;
        assert(row@.take(0) =~= Seq::<String>::empty());
        while c < row.len()
            invariant
                c <= row@.len(),
                insert_views(r@) == base + row_inserts(i as int, row@.take(c as int)),
            decreases row@.len() - c,
        {
            assert(row@.take(c + 1).drop_last() =~= row@.take(c as int));
            let ghost before = r@;
            if !row[c].as_str().is_empty() {
                r.push((i as u32, c as u32, row[c].clone()));
                assert(insert_views(r@) =~= insert_views(before).push((i as u32, c as u32, row@[c as int]@)));
            }
            c = c + 1;
        }
        assert(row@.take(c as int) =~= row@);
        i = i + 1;
    }
    assert(data@.take(i as int) =~= data@);
    r
}

/// The path of a presentation's batch update.
pub fn batch_update_path(presentation_id: &str) -> (p: String)
    ensures
        p@ == "/presentations/"@ + presentation_id@ + ":batchUpdate"@,
{
    concat3("/presentations/", presentation_id, ":batchUpdate")
}

} // verus!

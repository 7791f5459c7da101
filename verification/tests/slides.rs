use workspace_cli::commands::slides::batch_types::parse_hex_rgb;
use workspace_cli::commands::slides::update::{batch_update_path, shape_steps, table_cell_inserts, ShapeStep};

#[test]
fn hex_colors() {
    assert_eq!(parse_hex_rgb("#FF8000"), Ok((255, 128, 0)));
    assert_eq!(parse_hex_rgb("##0a0B0c"), Ok((10, 11, 12)));
    assert_eq!(parse_hex_rgb("+F+F+F"), Err("invalid digit found in string".to_string()));
    assert_eq!(parse_hex_rgb("#+f+f+f"), Err("invalid digit found in string".to_string()));
    assert_eq!(parse_hex_rgb("#FFF"), Err("Invalid hex color 'FFF': expected 6 hex digits".to_string()));
    assert_eq!(parse_hex_rgb("#GG0000"), Err("invalid digit found in string".to_string()));
    assert_eq!(parse_hex_rgb("-10000"), Err("invalid digit found in string".to_string()));
    assert_eq!(parse_hex_rgb("ééé"), Err("invalid digit found in string".to_string()));
}

#[test]
fn shape_plans() {
    assert_eq!(shape_steps(false, false, false, None), vec![ShapeStep::CreateShape]);
    assert_eq!(shape_steps(true, true, false, None), vec![ShapeStep::CreateShape, ShapeStep::InsertText, ShapeStep::TextStyle]);
    assert_eq!(shape_steps(true, false, false, Some((0, 0, 0))), vec![ShapeStep::CreateShape, ShapeStep::InsertText, ShapeStep::Fill, ShapeStep::WhiteText]);
    assert_eq!(shape_steps(true, false, true, Some((128, 127, 127))), vec![ShapeStep::CreateShape, ShapeStep::InsertText, ShapeStep::TextStyle, ShapeStep::Fill, ShapeStep::WhiteText]);
    assert_eq!(shape_steps(true, false, false, Some((128, 128, 127))), vec![ShapeStep::CreateShape, ShapeStep::InsertText, ShapeStep::Fill]);
    assert_eq!(shape_steps(false, false, false, Some((0, 0, 0))), vec![ShapeStep::CreateShape, ShapeStep::Fill]);
}

#[test]
fn table_cells() {
    let data = vec![
        vec!["Name".to_string(), "".to_string(), "Age".to_string()],
        vec![],
        vec!["".to_string(), "Bob".to_string()],
    ];
    let cells = table_cell_inserts(&data);
    let c: Vec<(u32, u32, &str)> = cells.iter().map(|(r, k, t)| (*r, *k, t.as_str())).collect();
    assert_eq!(c, vec![(0, 0, "Name"), (0, 2, "Age"), (2, 1, "Bob")]);
    assert_eq!(batch_update_path("P1"), "/presentations/P1:batchUpdate");
}

//! The character grid and its rectangular views.

use save_the_planet::grid::{Cell, Grid, Text};

#[test]
fn grid_view() {
    let mut grid = Grid::new(30, 20, ' ');

    let view = grid.view();

    view.set(&mut grid, 3, 2, 'd');
    view.set(&mut grid, 3, 4, '3');
    view.set(&mut grid, 23, 2, 'g');

    let mut printed = String::new();
    for line_id in 0..30 {
        for char_id in 0..20 {
            printed.push(view.get(&grid, line_id, char_id));
        }
        printed.push('\n');
    }
    println!("{}", printed);

    assert_eq!(view.get(&grid, 3, 2), 'd');
    assert_eq!(view.get(&grid, 3, 4), '3');
    assert_eq!(view.get(&grid, 23, 2), 'g');
    assert_eq!(view.get(&grid, 0, 0), ' ');
    assert_eq!(view.get(&grid, 3, 3), ' ');
}

#[test]
fn fill() {
    let mut grid = Grid::new(30, 20, Cell::new());

    let view = grid.view();

    let sub_view_1 = view.sub_view(10, 10, 3, 8);
    sub_view_1.fill_char(&mut grid, '@');
    let sub_view_2 = view.sub_view(20, 5, 3, 13);
    sub_view_2.fill_char(&mut grid, 'B');
    let sub_view_3 = sub_view_2.sub_view(0, 0, 2, 2);
    sub_view_3.fill_char(&mut grid, 'E');

    assert_eq!(view.get(&grid, 10, 10).character, '@');
    assert_eq!(view.get(&grid, 12, 17).character, '@');
    assert_eq!(view.get(&grid, 10, 9).character, ' ');
    assert_eq!(view.get(&grid, 22, 17).character, 'B');
    assert_eq!(view.get(&grid, 20, 5).character, 'E');
    assert_eq!(view.get(&grid, 21, 6).character, 'E');
    assert_eq!(view.get(&grid, 20, 7).character, 'B');
    assert_eq!(view.get(&grid, 0, 0).character, ' ');
}

#[test]
fn fill_char_keeps_colors() {
    let mut grid = Grid::new(2, 2, Cell::new());
    let view = grid.view();
    let before = view.get(&grid, 0, 0);
    view.fill_char(&mut grid, 'x');
    let after = view.get(&grid, 0, 0);
    assert_eq!(after.character, 'x');
    assert_eq!(after.foreground, before.foreground);
    assert_eq!(after.background, before.background);
}

#[test]
fn text_and_print() {
    let mut grid = Grid::new(3, 10, Cell::new());
    let view = grid.view();
    let text = Text::new().raw("ok");
    view.print(&mut grid, 1, 2, &text);
    assert_eq!(view.get(&grid, 1, 2).character, 'o');
    assert_eq!(view.get(&grid, 1, 3).character, 'k');
    assert_eq!(view.get(&grid, 1, 1).character, ' ');

    let long = Text::new().raw("abcdefghijklm");
    view.print_overflowing(&mut grid, 0, &long);
    assert_eq!(view.get(&grid, 0, 0).character, 'a');
    assert_eq!(view.get(&grid, 0, 9).character, 'j');
    assert_eq!(view.get(&grid, 1, 0).character, 'k');
    assert_eq!(view.get(&grid, 1, 2).character, 'm');
}

#[test]
fn block_draws_a_border() {
    let mut grid = Grid::new(5, 7, Cell::new());
    let view = grid.view();
    let inner = view.block(&mut grid);
    assert_eq!(view.get(&grid, 0, 0).character, '┌');
    assert_eq!(view.get(&grid, 0, 6).character, '┐');
    assert_eq!(view.get(&grid, 4, 0).character, '└');
    assert_eq!(view.get(&grid, 4, 6).character, '┘');
    assert_eq!(view.get(&grid, 0, 3).character, '─');
    assert_eq!(view.get(&grid, 2, 0).character, '│');
    assert_eq!(inner.height(), 3);
    assert_eq!(inner.width(), 5);
}

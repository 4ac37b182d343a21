//! Drawing the world into a character grid.
//!
//! Rendering is pure: it reads the world and fills a fresh [`Grid`]. All
//! state changes happen elsewhere, through the action and simulation
//! functions. Values too large for the requested display precision are
//! shown as a placeholder instead of stopping the game.

use vstd::prelude::*;
use vstd::string::{StrSliceExecFns, StringExecFns};

use crate::decimal::dec_string;
use crate::duration::{Duration, GRANULARITY, TICKS_PER_MILLISECOND};
use crate::grid::{Cell, Color, Grid, MutGridView, Text};
use crate::message::Messages;
use crate::quantity::Quantity;
use crate::world::cards::activism::{Stage, NUMBER_OF_PROLOG_STEPS};
use crate::world::cards::Card;
use crate::world::{Input, World};

verus! {

pub const LINES_MAIN_FRAME_CONTENT: usize = 10;

/// `LINES_MAIN_FRAME_CONTENT + 2`
pub const LINES_MAIN_FRAME: usize = 12;

pub const LINES_MESSAGES: usize = 3;

/// `LINES_MAIN_FRAME + LINES_MESSAGES`
pub const LINES_GRID: usize = 15;

pub const CHARS_MENU: usize = 13;

pub const CHARS_CARD: usize = 23;

/// `CHARS_MENU + CHARS_CARD + 3`
pub const CHARS_GRID: usize = 39;

/// `s` cut down to at most `max` characters.
fn clip(s: String, max: usize) -> (r: String)
    ensures
        r@.len() <= max,
{
    let n = s.as_str().unicode_len();
    if n <= max {
        s
    } else {
        s.as_str().substring_char(0, max).to_owned()
    }
}

/// Prints `s` at the left edge of line `line_id` of the view, cut down to
/// the view's width.
fn print_line(view: &MutGridView, grid: &mut Grid<Cell>, line_id: usize, s: String)
    requires
        view.fits_grid(*old(grid)),
        line_id < view.spec_height(),
    ensures
        final(grid).spec_width() == old(grid).spec_width(),
        final(grid).spec_height() == old(grid).spec_height(),
        final(grid).cells().len() == old(grid).cells().len(),
        view.fits_grid(*final(grid)),
{
    let clipped = clip(s, view.width());
    let text = Text::new().raw(clipped.as_str());
    view.print(grid, line_id, 0, &text);
}

/// The placeholder for a value beyond the display precision.
fn too_large() -> (s: String) {
    String::from_str("?")
}

/// The guided flyer-handout line, counting the remaining flyers down.
fn handout_text(remaining: u128) -> (s: &'static str) {
    if remaining >= 10 {
        "10"
    } else if remaining == 9 {
        "9"
    } else if remaining == 8 {
        "8"
    } else if remaining == 7 {
        "7"
    } else if remaining == 6 {
        "6"
    } else if remaining == 5 {
        "5"
    } else if remaining == 4 {
        "4"
    } else if remaining == 3 {
        "3"
    } else if remaining == 2 {
        "2"
    } else {
        "Last Hope"
    }
}

/// The guided printing line for each introduction step.
fn print_text(step: usize) -> (s: &'static str) {
    if step == 0 {
        "need to print more"
    } else if step == 1 {
        "oh no, not enough saved"
    } else if step == 2 {
        "still need to wait xyz minutes"
    } else if step == 3 {
        "dont be impatient"
    } else if step == 4 {
        "on the other hand"
    } else {
        "maybe its fine to"
    }
}

impl World {
    /// Draws the whole world into a fresh grid: the main frame with the
    /// menu and the selected card on top, the message area below.
    pub fn render(&self, input: &Input) -> (g: Grid<Cell>)
        requires
            self.wf(),
        ensures
            g.wf(),
            g.spec_height() == LINES_GRID,
            g.spec_width() == CHARS_GRID,
    {
        let mut grid = Grid::new(LINES_GRID, CHARS_GRID, Cell::new());
        let view = grid.view();

        let top_view = view.sub_view(0, 0, LINES_MAIN_FRAME, CHARS_GRID);
        let color = match self.cards.selected {
            Card::CO2 => Color::cyan(),
            Card::Milestones => Color::yellow(),
            Card::Research => Color::red(),
            Card::Staff => Color::white(),
        };
        top_view.fill_foreground(&mut grid, color);

        let available = self.cards.available_cards();
        if available.len() >= 2 {
            self.render_main_navigation(input, &mut grid, top_view);
        } else {
            self.render_main_card(input, &mut grid, top_view);
        }

        let bottom_view = view.sub_view(LINES_MAIN_FRAME, 0, LINES_MESSAGES, CHARS_GRID);
        self.render_bottom_area(input, &mut grid, bottom_view);

        grid
    }

    /// Draws the framed menu next to the selected card.
    fn render_main_navigation(&self, input: &Input, grid: &mut Grid<Cell>, view: MutGridView)
        requires
            self.wf(),
            view.fits_grid(*old(grid)),
            view.spec_height() == LINES_MAIN_FRAME,
            view.spec_width() == CHARS_GRID,
        ensures
            final(grid).spec_width() == old(grid).spec_width(),
            final(grid).spec_height() == old(grid).spec_height(),
            final(grid).cells().len() == old(grid).cells().len(),
            view.fits_grid(*final(grid)),
    {
        let (left, pre_right) = view.split_block(grid, CHARS_MENU);
        self.render_menu(grid, left);
        let right = view.sub_view(pre_right.0, pre_right.1, pre_right.2, pre_right.3);
        self.render_card(input, grid, right);
    }

    /// Draws the selected card inside a plain frame, without a menu.
    fn render_main_card(&self, input: &Input, grid: &mut Grid<Cell>, view: MutGridView)
        requires
            self.wf(),
            view.fits_grid(*old(grid)),
            view.spec_height() == LINES_MAIN_FRAME,
            view.spec_width() == CHARS_GRID,
        ensures
            final(grid).spec_width() == old(grid).spec_width(),
            final(grid).spec_height() == old(grid).spec_height(),
            final(grid).cells().len() == old(grid).cells().len(),
            view.fits_grid(*final(grid)),
    {
        let inner = view.block(grid);
        self.render_card(input, grid, inner);
    }

    /// Draws the menu entries, marking the selected card.
    fn render_menu(&self, grid: &mut Grid<Cell>, view: MutGridView)
        requires
            self.wf(),
            view.fits_grid(*old(grid)),
            view.spec_height() == LINES_MAIN_FRAME_CONTENT,
            view.spec_width() == CHARS_MENU,
        ensures
            final(grid).spec_width() == old(grid).spec_width(),
            final(grid).spec_height() == old(grid).spec_height(),
            final(grid).cells().len() == old(grid).cells().len(),
            view.fits_grid(*final(grid)),
    {
        let available = self.cards.available_cards();
        let mut line: usize = 0;
        while line < available.len() && line < LINES_MAIN_FRAME_CONTENT
            invariant
                self.wf(),
                view.fits_grid(*grid),
                view.spec_height() == LINES_MAIN_FRAME_CONTENT,
                view.spec_width() == CHARS_MENU,
                grid.spec_width() == old(grid).spec_width(),
                grid.spec_height() == old(grid).spec_height(),
                grid.cells().len() == old(grid).cells().len(),
            decreases available.len() - line,
        {
            let card = available[line];
            let marker = if card == self.cards.selected {
                "> "
            } else {
                "  "
            };
            let label = match card {
                Card::CO2 => "CO2",
                Card::Milestones => "Milestones",
                Card::Research => "Research",
                Card::Staff => "Staff",
            };
            let mut s = String::from_str(marker);
            s.append(label);
            print_line(&view, grid, line, s);
            line = line + 1;
        }
    }

    /// Draws the selected card's content.
    fn render_card(&self, input: &Input, grid: &mut Grid<Cell>, view: MutGridView)
        requires
            self.wf(),
            view.fits_grid(*old(grid)),
            view.spec_height() == LINES_MAIN_FRAME_CONTENT,
            CHARS_CARD <= view.spec_width(),
        ensures
            final(grid).spec_width() == old(grid).spec_width(),
            final(grid).spec_height() == old(grid).spec_height(),
            final(grid).cells().len() == old(grid).cells().len(),
            view.fits_grid(*final(grid)),
    {
        match self.cards.selected {
            Card::CO2 => self.render_card_activism(input, grid, view),
            Card::Milestones => {},
            Card::Research => self.render_card_research(grid, view),
            Card::Staff => {},
        }
    }

    /// Draws the activism card: the introduction's guidance, or the open
    /// game's numbers.
    fn render_card_activism(&self, input: &Input, grid: &mut Grid<Cell>, view: MutGridView)
        requires
            self.wf(),
            view.fits_grid(*old(grid)),
            view.spec_height() == LINES_MAIN_FRAME_CONTENT,
            CHARS_CARD <= view.spec_width(),
        ensures
            final(grid).spec_width() == old(grid).spec_width(),
            final(grid).spec_height() == old(grid).spec_height(),
            final(grid).cells().len() == old(grid).cells().len(),
            view.fits_grid(*final(grid)),
    {
        let activism = &self.cards.activism;
        match activism.stage {
            Stage::Prolog { step } => {
                let zero = Quantity::new(0);
                if zero.lt(&activism.flyer) {
                    let remaining = activism.flyer.whole_amount();
                    print_line(&view, grid, 0, String::from_str(handout_text(remaining)));
                } else {
                    let capped = if step < NUMBER_OF_PROLOG_STEPS {
                        step
                    } else {
                        NUMBER_OF_PROLOG_STEPS - 1
                    };
                    print_line(&view, grid, 0, String::from_str(print_text(capped)));
                }
            },
            Stage::Main => {
                let mut saved = String::from_str("Saved CO2e: ");
                match activism.emission_balance.balance().stringify_checked(2) {
                    Some(s) => saved.append(s.as_str()),
                    None => saved.append(too_large().as_str()),
                }
                print_line(&view, grid, 0, saved);

                let mut flyer = String::from_str("Flyer: ");
                match activism.flyer.stringify_checked(0) {
                    Some(s) => flyer.append(s.as_str()),
                    None => flyer.append(too_large().as_str()),
                }
                print_line(&view, grid, 1, flyer);

                let mut rate = String::from_str(" Rate: ");
                match activism.save_rate_from_flyers.stringify_checked(4) {
                    Some(s) => rate.append(s.as_str()),
                    None => rate.append(too_large().as_str()),
                }
                print_line(&view, grid, 2, rate);

                let mut support = String::from_str(" Supp: ");
                match activism.supporting_people.stringify_checked(0) {
                    Some(s) => support.append(s.as_str()),
                    None => support.append(too_large().as_str()),
                }
                support.append(" / ");
                match people_total(
                    &activism.supporting_people,
                    &activism.unsupporting_people,
                ) {
                    Some(s) => support.append(s.as_str()),
                    None => support.append(too_large().as_str()),
                }
                print_line(&view, grid, 3, support);
            },
        }
    }

    /// Draws the research card: the running project, or the menu of open
    /// ones.
    fn render_card_research(&self, grid: &mut Grid<Cell>, view: MutGridView)
        requires
            self.wf(),
            view.fits_grid(*old(grid)),
            view.spec_height() == LINES_MAIN_FRAME_CONTENT,
            CHARS_CARD <= view.spec_width(),
        ensures
            final(grid).spec_width() == old(grid).spec_width(),
            final(grid).spec_height() == old(grid).spec_height(),
            final(grid).cells().len() == old(grid).cells().len(),
            view.fits_grid(*final(grid)),
    {
        match self.cards.research.manager.active() {
            Some(pq) => {
                print_line(&view, grid, 0, String::from_str("Current research:"));
                print_line(&view, grid, 1, pq.0.name());
                let mut progress = String::from_str("Progress: ");
                match pq.1.stringify_checked(2) {
                    Some(s) => progress.append(s.as_str()),
                    None => progress.append(too_large().as_str()),
                }
                print_line(&view, grid, 3, progress);
            },
            None => {
                print_line(&view, grid, 0, String::from_str("Choose next research project."));
                let projects = self.cards.research.manager.available_projects();
                let mut i: usize = 0;
                while i < projects.len() && i + 1 < LINES_MAIN_FRAME_CONTENT
                    invariant
                        self.wf(),
                        view.fits_grid(*grid),
                        view.spec_height() == LINES_MAIN_FRAME_CONTENT,
                        CHARS_CARD <= view.spec_width(),
                        grid.spec_width() == old(grid).spec_width(),
                        grid.spec_height() == old(grid).spec_height(),
                        grid.cells().len() == old(grid).cells().len(),
                    decreases projects.len() - i,
                {
                    let mut entry = dec_string((i + 1) as u128);
                    entry.append(": ");
                    entry.append(projects[i].name().as_str());
                    print_line(&view, grid, i + 1, entry);
                    i = i + 1;
                }
            },
        }
    }

    /// Draws the bottom area: the mouse position and the current message.
    fn render_bottom_area(&self, input: &Input, grid: &mut Grid<Cell>, view: MutGridView)
        requires
            self.wf(),
            view.fits_grid(*old(grid)),
            view.spec_height() == LINES_MESSAGES,
            view.spec_width() == CHARS_GRID,
        ensures
            final(grid).spec_width() == old(grid).spec_width(),
            final(grid).spec_height() == old(grid).spec_height(),
            final(grid).cells().len() == old(grid).cells().len(),
            view.fits_grid(*final(grid)),
    {
        let mut position = String::from_str("Mouse tile position: ");
        position.append(dec_string(input.mouse_x as u128).as_str());
        position.append(", ");
        position.append(dec_string(input.mouse_y as u128).as_str());
        print_line(&view, grid, 0, position);
        print_line(&view, grid, 2, String::from_str("Messages can appear here."));

        render_message(&self.messages, &self.total_ticks, grid, view);
    }
}

/// The total head count, shown without decimals, if it fits the machine.
fn people_total(
    supporting: &Quantity<crate::quantity::types::Person>,
    unsupporting: &Quantity<crate::quantity::types::Person>,
) -> (r: Option<String>)
    requires
        supporting.wf(),
        unsupporting.wf(),
{
    let s = match supporting.try_total_steps() {
        Some(x) => x,
        None => { return None },
    };
    let u = match unsupporting.try_total_steps() {
        Some(x) => x,
        None => { return None },
    };
    let total = match s.checked_add(u) {
        Some(x) => x,
        None => { return None },
    };
    Some(dec_string(total / GRANULARITY))
}

/// Overlays the current message, colored by a simple three-step blink
/// derived from the simulation clock.
fn render_message(
    messages: &Messages,
    total_ticks: &Duration,
    grid: &mut Grid<Cell>,
    view: MutGridView,
)
    requires
        view.fits_grid(*old(grid)),
        view.spec_height() == LINES_MESSAGES,
        view.spec_width() == CHARS_GRID,
    ensures
        final(grid).spec_width() == old(grid).spec_width(),
        final(grid).spec_height() == old(grid).spec_height(),
        final(grid).cells().len() == old(grid).cells().len(),
        view.fits_grid(*final(grid)),
{
    match messages.get_current() {
        None => {},
        Some(message) => {
            let millis = total_ticks.ticks() / TICKS_PER_MILLISECOND;
            let color = match (millis / 50) % 3 {
                0 => Color::red(),
                1 => Color::green(),
                _ => Color::blue(),
            };
            let owned: String = message.text().to_owned();
            let clipped = clip(owned, CHARS_GRID * LINES_MESSAGES);
            let text = Text::new().styled(clipped.as_str(), None, Some(color));
            view.print_overflowing(grid, 0, &text);
        },
    }
}

} // verus!

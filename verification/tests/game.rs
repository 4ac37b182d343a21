//! The game layer: messages, menu, research life cycle, and world steps.

use save_the_planet::duration::Duration;
use save_the_planet::menu;
use save_the_planet::message::{standard_message_duration, Message, Messages};
use save_the_planet::quantity::Quantity;
use save_the_planet::rate::Rate;
use save_the_planet::world::cards::research::{Project, ResearchManager};
use save_the_planet::world::cards::Card;
use save_the_planet::world::render::{CHARS_GRID, LINES_GRID};
use save_the_planet::world::{Input, World};

#[test]
fn messages_run_one_at_a_time() {
    let mut m = Messages::new();
    assert!(m.get_current().is_none());
    m.queue(Message::new("first".to_string(), standard_message_duration()));
    m.queue(Message::new("second".to_string(), standard_message_duration()));
    assert_eq!(m.get_current().unwrap().text(), "first");

    // Four seconds: still the first message.
    m.simulate(Duration::from_seconds(4));
    assert_eq!(m.get_current().unwrap().text(), "first");
    // One more second reaches the five-second display time.
    m.simulate(Duration::from_seconds(1));
    assert_eq!(m.get_current().unwrap().text(), "second");
    m.simulate(Duration::from_seconds(5));
    assert!(m.get_current().is_none());
}

#[test]
fn menu_moves_only_to_reachable_screens() {
    let mut cards = menu::Cards::new();
    assert_eq!(cards.selected, menu::Card::Flyer);
    // Achievements not unlocked yet: selection stays.
    cards.next();
    assert_eq!(cards.selected, menu::Card::Flyer);
    cards.achievements = Some(menu::Achievements::new());
    cards.next();
    assert_eq!(cards.selected, menu::Card::Achievements);
    cards.previous();
    assert_eq!(cards.selected, menu::Card::Flyer);
    assert_eq!(menu::Card::Flyer.text(), "Flyer");
    assert_eq!(menu::Card::Achievements.text(), "Achievements");
    assert_eq!(menu::Card::Flyer.next(), Some(menu::Card::Achievements));
    assert_eq!(menu::Card::Achievements.next(), None);
    assert_eq!(menu::Card::Flyer.previous(), None);
    assert_eq!(menu::Card::Achievements.previous(), Some(menu::Card::Flyer));
}

#[test]
fn research_manager_life_cycle() {
    let mut m = ResearchManager::new();
    // Only "Catchier Flyer" is open at the start.
    assert_eq!(m.available_projects(), vec![Project::CatchierFlyer1]);
    assert!(m.active().is_none());

    // Unlocking a locked project appends it; unlocking twice does nothing.
    m.unlock(Project::Recycling);
    assert_eq!(
        m.available_projects(),
        vec![Project::CatchierFlyer1, Project::Recycling]
    );
    m.unlock(Project::Recycling);
    assert_eq!(
        m.available_projects(),
        vec![Project::CatchierFlyer1, Project::Recycling]
    );

    m.activate(Project::CatchierFlyer1);
    assert_eq!(m.active().as_ref().unwrap().0, Project::CatchierFlyer1);
    assert_eq!(m.available_projects(), vec![Project::Recycling]);
}

#[test]
fn project_costs_and_names() {
    assert_eq!(Project::BetterGuidelines1.cost(), Quantity::new(1));
    assert_eq!(Project::BetterGuidelines2.cost(), Quantity::new(2));
    assert_eq!(Project::CatchierFlyer1.cost(), Quantity::fraction(1, 2));
    assert_eq!(Project::Recycling.cost(), Quantity::fraction(3, 2));
    assert_eq!(Project::CatchierFlyer1.name(), "Catchier Flyer");
    assert_eq!(Project::Recycling.name(), "Recycling");
}

#[test]
fn handing_out_ten_flyers_wins_one_supporter() {
    let mut w = World::new();
    for _ in 0..10 {
        assert!(w.handout_flyer());
    }
    // All ten initial flyers gone, one whole supporter won.
    assert!(!w.handout_flyer());
    assert_eq!(w.cards.activism.supporting_people, Quantity::new(1));
    assert_eq!(
        w.cards.activism.unsupporting_people,
        Quantity::new(8_999_999_999)
    );
}

#[test]
fn printing_needs_deficit_allowance() {
    let mut w = World::new();
    // Fresh ledger, no allowance: a six-unit print cost is unaffordable.
    assert!(!w.print_flyer());
    w.set_maximal_emission_deficit(Quantity::new(1000));
    assert!(w.print_flyer());
    assert_eq!(w.cards.activism.flyer, Quantity::new(11));
    // The print cost was debited.
    assert!(w.cards.activism.emission_balance.balance().is_less_than(&Quantity::new(0)));
}

#[test]
fn recycling_is_free() {
    let mut w = World::new();
    w.cards.activism.has_recycling = true;
    assert!(w.recycle_flyer());
    assert_eq!(w.cards.activism.flyer, Quantity::new(11));
    assert!(w
        .cards
        .activism
        .emission_balance
        .balance()
        .is_at_least(&Quantity::new(0)));
}

#[test]
fn research_completion_applies_the_project() {
    let mut w = World::new();
    // One researcher, and the catchier flyer under research.
    w.cards.staff.researcher = Quantity::new(1);
    assert!(w.activate_project_action(0));
    // Half a research point at one point per minute: thirty seconds.
    assert!(w.update(Duration::from_seconds(30)));
    assert_eq!(
        w.cards.activism.flyer_persuasiveness,
        Quantity::fraction(1, 7)
    );
    assert!(w.cards.research.manager.active().is_none());
    // Finishing the catchier flyer opens the guideline research.
    assert_eq!(
        w.cards.research.manager.available_projects(),
        vec![Project::BetterGuidelines1]
    );
}

#[test]
fn research_chain_reaches_both_guideline_tiers() {
    let mut w = World::new();
    w.cards.staff.researcher = Quantity::new(1);

    // Catchier flyer: half a point, thirty seconds.
    assert!(w.activate_project_action(0));
    assert!(w.update(Duration::from_seconds(30)));

    // Better guidelines: one point, a minute; raises the save rate per
    // supporter to 150,000 a year.
    assert!(w.activate_project_action(0));
    assert!(w.update(Duration::from_seconds(60)));
    assert_eq!(
        w.cards.activism.flyer_effectiveness.per(Duration::year()),
        Quantity::new(150_000)
    );

    // Even better guidelines: two points, two minutes; half a million.
    assert!(w.activate_project_action(0));
    assert!(w.update(Duration::from_seconds(120)));
    assert_eq!(
        w.cards.activism.flyer_effectiveness.per(Duration::year()),
        Quantity::new(500_000)
    );
}

#[test]
fn update_refuses_overflowing_state() {
    let mut w = World::new();
    // A save rate too large for the machine's integers: the guarded step
    // declines and leaves the world untouched.
    w.cards.activism.save_rate_from_flyers =
        Rate::new(Quantity::new(u128::MAX), Duration::tick());
    let before = w.cards.activism.flyer;
    assert!(!w.update(Duration::second()));
    assert_eq!(w.cards.activism.flyer, before);
}

#[test]
fn simulation_integrates_save_rate() {
    let mut w = World::new();
    // Win a supporter (ten handouts), then let a year of simulated time pass.
    for _ in 0..10 {
        assert!(w.handout_flyer());
    }
    assert!(w.update(Duration::year()));
    // One supporter at the initial effectiveness saves 100,000 units a year.
    let b = w.cards.activism.emission_balance.balance();
    assert!(b.is_at_least(&Quantity::new(100_000)));
    assert!(!b.is_at_least(&Quantity::new(100_001)));
    // Irregular steps accumulate to exactly the same total.
    let mut w2 = World::new();
    for _ in 0..10 {
        assert!(w2.handout_flyer());
    }
    assert!(w2.update(Duration::from_seconds(1)));
    let rest = Duration::year().sub(Duration::from_seconds(1));
    assert!(w2.update(rest));
    assert_eq!(
        w2.cards.activism.emission_balance.balance().stringify(4),
        w.cards.activism.emission_balance.balance().stringify(4)
    );
}

#[test]
fn milestones_appear_at_a_thousand_units() {
    let mut w = World::new();
    w.cards
        .activism
        .emission_balance
        .pos_mut()
        .add_assign(Quantity::new(1000));
    assert!(w.update(Duration::tick()));
    // The world step notices the crossed threshold.
    assert!(w.cards.milestones.is_visible());
}

#[test]
fn prolog_walks_its_steps() {
    let mut w = World::new();
    // Hand out all ten initial flyers.
    for _ in 0..10 {
        w.prolog_handout_action();
    }
    assert_eq!(w.cards.activism.flyer, Quantity::new(0));
    // Six guided print attempts; only the last one succeeds.
    for _ in 0..5 {
        w.prolog_print_action();
    }
    assert_eq!(w.cards.activism.flyer, Quantity::new(0));
    w.prolog_print_action();
    assert_eq!(w.cards.activism.flyer, Quantity::new(1));
    assert_eq!(
        w.cards.activism.maximal_emission_deficit,
        Quantity::new(1000)
    );
}

#[test]
fn flyer_action_unlocks_manual_research_when_printing_fails() {
    let mut w = World::new();
    // Printing fails on the fresh ledger, so the flyer action unlocks
    // manual research and the recycling project instead.
    w.flyer_action();
    assert_eq!(
        w.cards.research.manual_research_per_click,
        Quantity::fraction(1, 120)
    );
    let available = w.cards.research.manager.available_projects();
    assert!(available.contains(&Project::Recycling));
}

#[test]
fn card_selection_follows_visibility() {
    let mut w = World::new();
    assert_eq!(w.cards.selected, Card::CO2);
    // Research not discovered: selection cannot move down.
    w.select_next_card();
    assert_eq!(w.cards.selected, Card::CO2);
    w.cards.research.discovered = true;
    w.select_next_card();
    assert_eq!(w.cards.selected, Card::Research);
    w.select_previous_card();
    assert_eq!(w.cards.selected, Card::CO2);
    assert_eq!(w.cards.available_cards(), vec![Card::CO2, Card::Research]);
}

#[test]
fn rendering_shows_the_game_state() {
    let mut w = World::new();
    // Move past the introduction so the main numbers are shown.
    w.cards.activism.stage = save_the_planet::world::cards::activism::Stage::Main;
    let input = Input { event: None, mouse_x: 3, mouse_y: 7 };
    let grid = w.render(&input);
    let view = grid.view();
    assert_eq!(view.height(), LINES_GRID);
    assert_eq!(view.width(), CHARS_GRID);
    // One visible card: the whole frame is a plain block.
    assert_eq!(view.get(&grid, 0, 0).character, '┌');
    // The first content line of the activism card.
    let mut first_line = String::new();
    for ch in 0..CHARS_GRID {
        first_line.push(view.get(&grid, 1, ch).character);
    }
    assert!(first_line.contains("Saved CO2e: +0.00g"));
    // The mouse position line in the bottom area.
    let mut mouse_line = String::new();
    for ch in 0..CHARS_GRID {
        mouse_line.push(view.get(&grid, 12, ch).character);
    }
    assert!(mouse_line.contains("Mouse tile position: 3, 7"));
}

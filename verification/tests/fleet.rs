use smart_road::car::cars::CarTraits;
use smart_road::car::{Car, Direction, Lane, Picture};
use smart_road::state::GlobalState;
use smart_road::statistics::Statistics;

fn state() -> GlobalState {
    GlobalState::new(1_600_000, 900_000)
}

fn car_at(direction: Direction, lane: Lane, x: i64, y: i64) -> Car {
    let mut car = Car::spawn(direction, lane, 0, &state().intersection);
    car.set_x(x);
    car.set_y(y);
    car
}

fn tick(cars: &mut Vec<Car>, state: &mut GlobalState) {
    cars.move_cars(state);
    cars.remove_finished_cars(state);
}

#[test]
fn new_fleet_is_empty_and_add_car_appends() {
    let mut cars = <Vec<Car> as CarTraits>::new();
    assert!(cars.is_empty());
    let first = car_at(Direction::South, Lane::Middle, 720_001, 0);
    let second = car_at(Direction::North, Lane::Left, 826_666, 900_000);
    cars.add_car(first);
    cars.add_car(second);
    assert_eq!(cars, vec![first, second]);
}

#[test]
fn move_cars_ticks_a_single_vehicle() {
    let mut state = state();
    let start = car_at(Direction::South, Lane::Middle, 720_001, 0);
    let mut cars = vec![start];
    cars.move_cars(&mut state);
    assert_eq!(
        cars,
        vec![Car { target_speed: 2_200, speed: 150, y: 199, driving_time: 1, ..start }]
    );
    assert_eq!(state.get_cars(), cars);
    assert_eq!(
        state.get_statistics(),
        Statistics { max_speed: 150, min_speed: 150, ..Statistics::new() }
    );
    cars.move_cars(&mut state);
    assert_eq!(
        cars,
        vec![Car { target_speed: 2_200, speed: 300, y: 598, driving_time: 2, ..start }]
    );
    assert_eq!(
        state.get_statistics(),
        Statistics { max_speed: 300, min_speed: 150, ..Statistics::new() }
    );
}

#[test]
fn move_cars_replaces_the_fleet_of_the_context() {
    let mut state = state();
    state.set_cars(vec![car_at(Direction::West, Lane::Middle, 1_600_000, 370_001)]);
    let mut cars: Vec<Car> = Vec::new();
    cars.move_cars(&mut state);
    assert!(cars.is_empty());
    assert!(state.get_cars().is_empty());
}

#[test]
fn move_cars_turns_a_vehicle_at_its_turn_line() {
    let mut state = state();
    let start = car_at(Direction::South, Lane::Left, 773_334, 476_666);
    let mut cars = vec![start];
    cars.move_cars(&mut state);
    assert_eq!(
        cars,
        vec![Car {
            current_direction: Direction::East,
            rotation: 1_571,
            leaving_intersection: true,
            target_speed: 1_200,
            speed: 150,
            x: 773_533,
            y: 476_666,
            driving_time: 1,
            ..start
        }]
    );
    assert_eq!(cars[0].direction_from, Direction::South);
    assert_eq!(state.get_statistics().get_max_vehicles(), 1);
    cars.move_cars(&mut state);
    assert_eq!(cars[0].get_current_direction(), Direction::East);
    assert_eq!(state.get_statistics().get_max_vehicles(), 1);
}

#[test]
fn move_cars_lets_later_vehicles_see_earlier_ones_moved() {
    let follower = car_at(Direction::South, Lane::Middle, 720_001, 0);
    let mut lead = car_at(Direction::South, Lane::Middle, 720_001, 66_600);
    lead.set_speed(2_200);

    // The lead moves first and is out of reach when the follower looks.
    let mut state_a = state();
    let mut cars = vec![lead, follower];
    cars.move_cars(&mut state_a);
    assert_eq!(cars[0].get_y(), 69_532);
    assert_eq!(cars[1].get_target_speed(), 2_200);
    assert_eq!(cars[1].get_speed(), 150);

    // The follower looks first and finds the lead still within reach.
    let mut state_b = state();
    let mut cars = vec![follower, lead];
    cars.move_cars(&mut state_b);
    assert_eq!(cars[0].get_target_speed(), 0);
    assert_eq!(cars[0].get_speed(), 0);
    assert_eq!(cars[0].get_y(), 0);
    assert_eq!(cars[1].get_y(), 69_532);
}

#[test]
fn move_cars_keeps_speed_within_limits_and_steps() {
    let mut state = state();
    let mut cars = vec![
        car_at(Direction::South, Lane::Middle, 720_001, 0),
        car_at(Direction::East, Lane::Middle, 0, 529_999),
        car_at(Direction::North, Lane::Left, 826_666, 900_000),
        car_at(Direction::West, Lane::Right, 1_600_000, 316_668),
    ];
    for _ in 0..400 {
        let before = cars.clone();
        cars.move_cars(&mut state);
        assert_eq!(cars.len(), before.len());
        for (old, new) in before.iter().zip(cars.iter()) {
            assert!((0..=2_200).contains(&new.get_speed()));
            assert!((new.get_speed() - old.get_speed()).abs() <= 150);
            assert_eq!(new.direction_from, old.direction_from);
            assert_eq!(new.get_lane(), old.get_lane());
            assert_eq!(new.get_driving_time(), old.get_driving_time() + 1);
        }
    }
}

fn drive_through(direction: Direction, lane: Lane, turns_to: Direction) {
    let mut state = state();
    let start = Car::spawn(direction, lane, 0, &state.intersection);
    let mut cars = vec![start];
    let mut heading = direction;
    let mut changes = 0;
    let mut ticks: u64 = 0;
    while !cars.is_empty() {
        assert!(ticks < 5_000);
        cars.move_cars(&mut state);
        ticks += 1;
        let car = cars[0];
        assert_eq!(car.direction_from, direction);
        assert_eq!(car.get_lane(), lane);
        if car.get_current_direction() != heading {
            changes += 1;
            heading = car.get_current_direction();
            assert!(car.is_leaving_intersection());
        }
        if car.is_leaving_intersection() {
            assert_eq!(car.get_current_direction(), turns_to);
        } else {
            assert_eq!(car.get_current_direction(), direction);
        }
        cars.remove_finished_cars(&mut state);
    }
    assert_eq!(heading, turns_to);
    assert_eq!(changes, if lane == Lane::Middle { 0 } else { 1 });
    let statistics = state.get_statistics();
    assert_eq!(statistics.get_max_vehicles(), 1);
    assert_eq!(statistics.get_max_time(), ticks);
    assert_eq!(statistics.get_min_time(), ticks);
    assert_eq!(statistics.get_max_speed(), 2_200);
    assert_eq!(statistics.get_min_speed(), 150);
}

#[test]
fn a_vehicle_turns_once_and_leaves_by_the_turn_table() {
    drive_through(Direction::North, Lane::Left, Direction::West);
    drive_through(Direction::North, Lane::Middle, Direction::North);
    drive_through(Direction::North, Lane::Right, Direction::East);
    drive_through(Direction::South, Lane::Left, Direction::East);
    drive_through(Direction::South, Lane::Middle, Direction::South);
    drive_through(Direction::South, Lane::Right, Direction::West);
    drive_through(Direction::West, Lane::Left, Direction::South);
    drive_through(Direction::West, Lane::Middle, Direction::West);
    drive_through(Direction::West, Lane::Right, Direction::North);
    drive_through(Direction::East, Lane::Left, Direction::North);
    drive_through(Direction::East, Lane::Middle, Direction::East);
    drive_through(Direction::East, Lane::Right, Direction::South);
}

#[test]
fn eviction_takes_a_northbound_vehicle_beyond_the_top_edge() {
    let mut state = state();
    let mut gone = car_at(Direction::North, Lane::Middle, 879_999, -13_333);
    gone.set_driving_time(321);
    let staying = car_at(Direction::North, Lane::Middle, 879_999, -13_332);
    let mut cars = vec![gone, staying];
    cars.remove_finished_cars(&mut state);
    assert_eq!(cars, vec![staying]);
    assert_eq!(state.get_cars(), vec![staying]);
    assert_eq!(state.get_statistics().get_max_time(), 321);
    assert_eq!(state.get_statistics().get_min_time(), 321);

    let after_first = state.get_statistics();
    cars.remove_finished_cars(&mut state);
    assert_eq!(cars, vec![staying]);
    assert_eq!(state.get_statistics(), after_first);
}

#[test]
fn eviction_keeps_a_northbound_vehicle_inside_the_window() {
    let mut state = state();
    let inside = car_at(Direction::North, Lane::Middle, 879_999, 450_000);
    let mut cars = vec![inside];
    cars.remove_finished_cars(&mut state);
    assert_eq!(cars, vec![inside]);
    assert_eq!(state.get_statistics(), Statistics::new());
}

#[test]
fn eviction_goes_by_the_current_heading() {
    let mut state = state();
    // Entered heading north, has turned west, and is beyond the left edge.
    let mut turned = car_at(Direction::North, Lane::Left, -13_333, 423_334);
    turned.take_turn();
    turned.set_driving_time(10);
    // Heading north at the same place: not beyond the top edge.
    let upright = car_at(Direction::North, Lane::Left, -13_333, 423_334);
    let mut cars = vec![turned, upright];
    cars.remove_finished_cars(&mut state);
    assert_eq!(cars, vec![upright]);
}

#[test]
fn eviction_keeps_order_and_records_every_departure() {
    let mut state = state();
    let mut first = car_at(Direction::North, Lane::Middle, 879_999, -20_000);
    first.set_driving_time(100);
    let kept_a = car_at(Direction::South, Lane::Middle, 720_001, 10);
    let mut second = car_at(Direction::East, Lane::Middle, 1_700_000, 529_999);
    second.set_driving_time(50);
    let kept_b = car_at(Direction::West, Lane::Middle, 5, 370_001);
    let mut third = car_at(Direction::South, Lane::Left, 773_334, 913_333);
    third.set_driving_time(70);
    let mut cars = vec![first, kept_a, second, kept_b, third];
    cars.remove_finished_cars(&mut state);
    assert_eq!(cars, vec![kept_a, kept_b]);
    assert_eq!(state.get_statistics().get_max_time(), 100);
    assert_eq!(state.get_statistics().get_min_time(), 50);
    assert_eq!(
        state.get_statistics(),
        Statistics { max_time: 100, min_time: 50, ..Statistics::new() }
    );
}

#[test]
fn a_step_of_tick_and_eviction_runs_a_busy_junction() {
    let mut state = state();
    let mut cars: Vec<Car> = Vec::new();
    let entries = [
        (Direction::North, Lane::Left),
        (Direction::East, Lane::Middle),
        (Direction::South, Lane::Right),
        (Direction::West, Lane::Left),
        (Direction::North, Lane::Right),
        (Direction::East, Lane::Left),
        (Direction::South, Lane::Middle),
        (Direction::West, Lane::Right),
    ];
    for round in 0..3_000 {
        if round % 40 == 0 {
            let (direction, lane) = entries[(round / 40) % entries.len()];
            state.set_cars(cars.clone());
            let car = Car::spawn(direction, lane, round % 20, &state.intersection);
            state.spawn_request(car);
            cars = state.get_cars();
        }
        tick(&mut cars, &mut state);
        for car in &cars {
            assert!((0..=2_200).contains(&car.get_speed()));
            assert_ne!(car.get_current_direction(), Direction::Random);
            assert!(!car.is_finished(&state.intersection.dimensions));
        }
    }
    assert!(state.get_statistics().get_max_vehicles() > 0);
    assert!(state.get_statistics().get_max_speed() <= 2_200);
}

#[test]
fn draw_cars_describes_each_vehicle_in_order() {
    let state = state();
    let first = car_at(Direction::South, Lane::Middle, 720_001, 100_000);
    let mut second = Car::spawn(Direction::West, Lane::Left, 9, &state.intersection);
    second.set_x(1_000_000);
    let cars = vec![first, second];
    let pictures = cars.draw_cars(&state);
    assert_eq!(
        pictures,
        vec![
            Picture {
                x: 713_335,
                y: 86_667,
                width: 13_333,
                height: 26_666,
                sprite: 0,
                rotation: 3_142
            },
            Picture {
                x: 993_334,
                y: 410_001,
                width: 13_333,
                height: 26_666,
                sprite: 9,
                rotation: 4_712
            },
        ]
    );
}

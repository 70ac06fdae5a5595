use design_patterns::behavioral::command::{
    AddField, AnyMigration, CreateTable, Migration, Schema,
};
use design_patterns::behavioral::iter::AnimalCollection;
use design_patterns::behavioral::mediator::{
    AnyTrain, HCMTrain, Mediator, SETrain, Train, TrainStation,
};
use design_patterns::behavioral::strategy::{Bicyle, MotorBike, Move, Route};
use design_patterns::transcript::Transcript;

#[test]
fn migration_steps_say_what_they_do() {
    assert_eq!(CreateTable.execute(), "execute create table");
    assert_eq!(CreateTable.rollback(), "execute rollback");
    assert_eq!(AddField.execute(), "execute add field");
    assert_eq!(AddField.rollback(), "roll back field");
}

#[test]
fn schema_runs_first_to_last_and_rolls_back_last_to_first() {
    let mut schema = Schema::new();
    schema.add_migration(AnyMigration::CreateTable(CreateTable));
    schema.add_migration(AnyMigration::AddField(AddField));
    assert_eq!(schema.execute(), vec!["execute create table", "execute add field"]);
    assert_eq!(schema.rollback(), vec!["roll back field", "execute rollback"]);
}

#[test]
fn empty_schema_says_nothing() {
    let schema: Schema<AnyMigration> = Schema::new();
    assert!(schema.execute().is_empty());
    assert!(schema.rollback().is_empty());
}

#[test]
fn schema_of_one_kind_of_step() {
    let mut schema = Schema::new();
    schema.add_migration(AddField);
    schema.add_migration(AddField);
    schema.add_migration(AddField);
    assert_eq!(schema.execute(), vec!["execute add field"; 3]);
    assert_eq!(schema.rollback(), vec!["roll back field"; 3]);
}

#[test]
fn iterator_hands_out_each_animal_once() {
    let animals = AnimalCollection { animal: ["cat", "dog", "owl"] };
    let mut iterator = animals.iter();
    assert_eq!(iterator.next(), Some("cat"));
    assert_eq!(iterator.next(), Some("dog"));
    assert_eq!(iterator.next(), Some("owl"));
    assert_eq!(iterator.next(), None);
    assert_eq!(iterator.next(), None);
    let mut again = animals.iter();
    assert_eq!(again.next(), Some("cat"));
}

#[test]
fn routes_by_strategy() {
    let mut out = Transcript::new();
    let moving = Move::new("HCM", "Dallas");
    let path = moving.find_path(Bicyle, &mut out);
    assert_eq!((path.hour, path.kilometers), (8, 300));
    let path = moving.find_path(MotorBike, &mut out);
    assert_eq!((path.hour, path.kilometers), (2, 500));
    assert_eq!(
        out.lines(),
        &vec![
            "moving from HCM to Dallas by Bicyle take 8hours".to_string(),
            "moving from HCM to Dallas by MotorBike take 2hours".to_string(),
        ]
    );
}

#[test]
fn route_built_directly() {
    let mut out = Transcript::new();
    let path = MotorBike.build_route("", "B", &mut out);
    assert_eq!((path.hour, path.kilometers), (2, 500));
    assert_eq!(out.line(0), "moving from  to B by MotorBike take 2hours");
}

fn hcm(name: &str) -> AnyTrain {
    AnyTrain::HCM(HCMTrain { name: name.to_string() })
}

fn se(name: &str) -> AnyTrain {
    AnyTrain::SE(SETrain { name: name.to_string() })
}

#[test]
fn first_train_takes_the_platform_and_the_others_wait() {
    let mut out = Transcript::new();
    let mut station = TrainStation::default();
    station.accept(hcm("A"), &mut out);
    station.accept(se("B"), &mut out);
    station.accept(hcm("C"), &mut out);
    assert_eq!(
        out.lines(),
        &vec![
            "HCM train A: Arrived".to_string(),
            "SE train B Arrival blocked, waiting".to_string(),
            "HCM train C Arrival blocked, waiting".to_string(),
        ]
    );
}

#[test]
fn a_train_is_accepted_once() {
    let mut out = Transcript::new();
    let mut station = TrainStation::default();
    station.accept(hcm("A"), &mut out);
    station.accept(se("A"), &mut out);
    assert_eq!(
        out.lines(),
        &vec!["HCM train A: Arrived".to_string(), "A already arrived".to_string()]
    );
}

#[test]
fn unknown_train_cannot_depart() {
    let mut out = Transcript::new();
    let mut station = TrainStation::default();
    station.depart("X", &mut out);
    station.accept(hcm("A"), &mut out);
    station.depart("B", &mut out);
    assert_eq!(
        out.lines(),
        &vec![
            "X is not on the station".to_string(),
            "HCM train A: Arrived".to_string(),
            "B is not on the station".to_string(),
        ]
    );
}

#[test]
fn departure_from_the_platform_moves_two_trains_up() {
    let mut out = Transcript::new();
    let mut station = TrainStation::default();
    station.accept(hcm("A"), &mut out);
    station.accept(se("B"), &mut out);
    station.accept(hcm("C"), &mut out);
    let mut out = Transcript::new();
    assert!(station.can_depart("A"));
    station.depart("A", &mut out);
    assert_eq!(
        out.lines(),
        &vec![
            "HCM train A: Leaving".to_string(),
            "Train A is ready for departure".to_string(),
            "SE train B: Arrived".to_string(),
            "Train A has departure".to_string(),
        ]
    );
    // C stands on the platform now and nobody waits: the next one has to wait,
    // and A is not known any more.
    let mut out = Transcript::new();
    station.accept(se("D"), &mut out);
    station.depart("A", &mut out);
    assert_eq!(
        out.lines(),
        &vec![
            "SE train D Arrival blocked, waiting".to_string(),
            "A is not on the station".to_string(),
        ]
    );
}

#[test]
fn departure_of_a_waiting_train_moves_the_first_of_the_queue_up() {
    let mut out = Transcript::new();
    let mut station = TrainStation::default();
    station.accept(hcm("A"), &mut out);
    station.accept(se("B"), &mut out);
    station.accept(hcm("C"), &mut out);
    let mut out = Transcript::new();
    assert!(station.can_depart("C"));
    station.depart("C", &mut out);
    assert_eq!(
        out.lines(),
        &vec!["HCM train C: Leaving".to_string(), "Train C has departure".to_string()]
    );
    // B stands on the platform now, and C still has its place in the queue.
    assert!(!station.notify_about_arrival("E"));
    let mut out = Transcript::new();
    station.notify_about_departure("nobody", &mut out);
    assert_eq!(out.lines(), &vec!["Train nobody has departure".to_string()]);
    // C stands on the platform now and E waits: B, which the station knows
    // and which is not on the platform, can depart, and E moves up.
    assert!(station.can_depart("B"));
    let mut out = Transcript::new();
    station.depart("B", &mut out);
    assert_eq!(
        out.lines(),
        &vec!["SE train B: Leaving".to_string(), "Train B has departure".to_string()]
    );
    assert!(!station.can_depart("A"));
}

#[test]
fn departure_needs_trains_in_the_queue() {
    let mut out = Transcript::new();
    let mut station = TrainStation::default();
    assert!(station.can_depart("A"));
    station.accept(hcm("A"), &mut out);
    // A is on the platform: two trains must wait before it can depart.
    assert!(!station.can_depart("A"));
    station.accept(se("B"), &mut out);
    assert!(!station.can_depart("A"));
    // B waits: one train in the queue is enough for it.
    assert!(station.can_depart("B"));
    station.accept(se("C"), &mut out);
    assert!(station.can_depart("A"));
    assert!(station.can_depart("B"));
    assert!(station.can_depart("C"));
    assert!(station.can_depart("unknown"));
}

#[test]
fn station_lets_in_while_the_platform_is_free() {
    let mut station = TrainStation::default();
    assert!(station.notify_about_arrival("A"));
    assert!(!station.notify_about_arrival("B"));
    assert!(!station.notify_about_arrival("C"));
}

#[test]
fn train_reports() {
    let mut out = Transcript::new();
    let train = se("S1");
    assert_eq!(train.name(), "S1");
    train.report_arrival(true, &mut out);
    train.report_arrival(false, &mut out);
    let mut station = TrainStation::default();
    let mut first = hcm("H1");
    first.arrive(&mut station, &mut out);
    let mut second = hcm("H2");
    second.arrive(&mut station, &mut out);
    let mut third = se("S3");
    third.arrive(&mut station, &mut out);
    second.depart(&mut station, &mut out);
    assert_eq!(
        out.lines(),
        &vec![
            "SE train S1: Arrived".to_string(),
            "SE train S1 Arrival blocked, waiting".to_string(),
            "HCM train H1: Arrived".to_string(),
            "HCM train H2 Arrival blocked, waiting".to_string(),
            "SE train S3 Arrival blocked, waiting".to_string(),
            "HCM train H2: Leaving".to_string(),
            "Train H2 has departure".to_string(),
        ]
    );
}

use rust_tour::closures::{
    generate_workout, shoes_in_my_size, Cacher, Counter, Shoe, Workout,
};

#[test]
fn iter_demo() {
    let v1 = vec![1, 2, 3];
    let mut v1_iter = v1.iter();

    assert_eq!(v1_iter.next(), Some(&1));
    assert_eq!(v1_iter.next(), Some(&2));
    assert_eq!(v1_iter.next(), Some(&3));
    assert_eq!(v1_iter.next(), None);
}

#[test]
fn iter_sum() {
    let v1 = vec![1, 2, 3];
    let v1_iter = v1.iter();
    let total: i32 = v1_iter.sum();
    assert_eq!(total, 6);
}

#[test]
fn map_adapter() {
    let v1: Vec<i32> = vec![1, 2, 3];
    let v2: Vec<_> = v1.iter().map(|x| x + 1).collect();
    assert_eq!(v2, vec![2, 3, 4]);
}

#[test]
fn filters_by_size() {
    let shoes = vec![
        Shoe { size: 10, style: String::from("sneaker") },
        Shoe { size: 13, style: String::from("sandal") },
        Shoe { size: 10, style: String::from("boot") },
    ];

    let in_my_size = shoes_in_my_size(shoes, 10);

    assert_eq!(
        in_my_size,
        vec![
            Shoe { size: 10, style: String::from("sneaker") },
            Shoe { size: 10, style: String::from("boot") },
        ]
    );
}

#[test]
fn filters_by_size_none_match() {
    let shoes = vec![Shoe { size: 13, style: String::from("sandal") }];
    assert_eq!(shoes_in_my_size(shoes, 10), vec![]);
    assert_eq!(shoes_in_my_size(vec![], 10), vec![]);
}

#[test]
fn calling_next_directly() {
    let mut counter = Counter::new();

    assert_eq!(counter.next(), Some(1));
    assert_eq!(counter.next(), Some(2));
    assert_eq!(counter.next(), Some(3));
    assert_eq!(counter.next(), Some(4));
    assert_eq!(counter.next(), Some(5));
    assert_eq!(counter.next(), None);
}

// Pairs each count with the count of a second counter that skipped its
// first number, multiplies each pair, keeps the products divisible by 3,
// and sums them.
#[test]
fn using_other_itr_trait_methods() {
    let mut a = Counter::new();
    let mut b = Counter::new();
    b.next();
    let mut sum: u32 = 0;
    loop {
        let x = match a.next() {
            Some(x) => x,
            None => break,
        };
        let y = match b.next() {
            Some(y) => y,
            None => break,
        };
        let product = x * y;
        if product % 3 == 0 {
            sum += product;
        }
    }
    assert_eq!(18, sum);
}

#[test]
fn cacher_runs_the_calculation_once() {
    let mut c = Cacher::new(|n| n * 2);
    assert_eq!(c.value(5), 10);
    // the first result is kept, whatever the later argument
    assert_eq!(c.value(7), 10);
}

#[test]
fn workout_low_intensity_is_strength() {
    assert_eq!(
        generate_workout(10, 7, |n| n),
        Workout::Strength { pushups: 10, situps: 10 }
    );
}

#[test]
fn workout_high_intensity_runs_or_rests() {
    assert_eq!(generate_workout(30, 3, |n| n), Workout::Rest);
    assert_eq!(generate_workout(30, 7, |n| n + 1), Workout::Run { minutes: 31 });
}

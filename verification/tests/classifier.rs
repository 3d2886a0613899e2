use zk_dtp::classifier::{predict, Category, ClassificationInput};

#[test]
fn narrow_petal_is_setosa() {
    assert_eq!(predict(0, 0, 0, 0), 0);
    assert_eq!(predict(700, 320, 470, 79), 0);
    assert_eq!(predict(700, 320, 470, 80), 0);
    assert_eq!(predict(u32::MAX, u32::MAX, u32::MAX, 80), 0);
}

#[test]
fn threshold_80_on_petal_width() {
    assert_eq!(predict(500, 300, 400, 79), 0);
    assert_eq!(predict(500, 300, 400, 80), 0);
    assert_eq!(predict(500, 300, 400, 81), 1);
}

#[test]
fn threshold_175_on_petal_width() {
    // petal_length 490 lies below 495 and above 485
    assert_eq!(predict(500, 300, 490, 174), 2);
    assert_eq!(predict(500, 300, 490, 175), 2);
    assert_eq!(predict(500, 300, 490, 176), 2);
    // petal_length 480, sepal_length 500: the right branch says 1, the left 2
    assert_eq!(predict(500, 300, 480, 174), 2);
    assert_eq!(predict(500, 300, 480, 175), 2);
    assert_eq!(predict(500, 300, 480, 176), 1);
}

#[test]
fn threshold_495_on_petal_length() {
    assert_eq!(predict(500, 300, 494, 100), 1);
    assert_eq!(predict(500, 300, 495, 100), 1);
    assert_eq!(predict(500, 300, 496, 100), 2);
}

#[test]
fn threshold_165_on_petal_width() {
    assert_eq!(predict(500, 300, 495, 164), 1);
    assert_eq!(predict(500, 300, 495, 165), 1);
    assert_eq!(predict(500, 300, 495, 166), 2);
}

#[test]
fn threshold_155_on_petal_width() {
    assert_eq!(predict(500, 300, 496, 154), 2);
    assert_eq!(predict(500, 300, 496, 155), 2);
    assert_eq!(predict(500, 300, 496, 156), 1);
}

#[test]
fn threshold_695_on_sepal_length() {
    assert_eq!(predict(694, 300, 496, 160), 1);
    assert_eq!(predict(695, 300, 496, 160), 1);
    assert_eq!(predict(696, 300, 496, 160), 2);
}

#[test]
fn threshold_485_on_petal_length() {
    assert_eq!(predict(500, 300, 484, 180), 1);
    assert_eq!(predict(500, 300, 485, 180), 1);
    assert_eq!(predict(500, 300, 486, 180), 2);
}

#[test]
fn threshold_595_on_sepal_length() {
    assert_eq!(predict(594, 300, 485, 176), 1);
    assert_eq!(predict(595, 300, 485, 176), 1);
    assert_eq!(predict(596, 300, 485, 176), 2);
}

#[test]
fn wide_petal_examples() {
    assert_eq!(predict(595, 0, 486, 176), 2);
    assert_eq!(predict(596, 0, 486, 176), 2);
    assert_eq!(predict(595, 0, 485, 176), 1);
    assert_eq!(predict(0, 0, 0, 100), 1);
    assert_eq!(predict(0, 0, 495, 100), 1);
    assert_eq!(predict(u32::MAX, u32::MAX, u32::MAX, u32::MAX), 2);
}

#[test]
fn end_to_end_example_is_versicolor() {
    assert_eq!(predict(700, 320, 470, 140), 1);
    let input = ClassificationInput {
        sepal_length: 700,
        sepal_width: 320,
        petal_length: 470,
        petal_width: 140,
    };
    assert_eq!(input.classify(), Category::Versicolor);
    assert_eq!(input.classify().name(), "versicolor");
}

#[test]
fn same_input_same_answer() {
    let quads = [
        (700, 320, 470, 140),
        (510, 350, 140, 20),
        (630, 330, 600, 250),
        (0, 0, 0, 0),
        (u32::MAX, 1, 2, 3),
    ];
    for (a, b, c, d) in quads {
        assert_eq!(predict(a, b, c, d), predict(a, b, c, d));
    }
}

#[test]
fn sepal_width_does_not_matter() {
    for width in [0, 1, 320, 10_000, u32::MAX] {
        assert_eq!(predict(700, width, 470, 140), 1);
        assert_eq!(predict(696, width, 496, 160), 2);
        assert_eq!(predict(500, width, 400, 80), 0);
    }
}

#[test]
fn answer_is_always_a_category() {
    let values = [0, 79, 80, 81, 155, 156, 165, 166, 175, 176, 485, 486, 495, 496, 595, 596, 695, 696];
    for &sl in &values {
        for &pl in &values {
            for &pw in &values {
                let c = predict(sl, 0, pl, pw);
                assert!(c <= 2);
                assert!(Category::from_index(c).is_some());
            }
        }
    }
}

#[test]
fn category_indices_and_names() {
    assert_eq!(Category::Setosa.to_index(), 0);
    assert_eq!(Category::Versicolor.to_index(), 1);
    assert_eq!(Category::Virginica.to_index(), 2);
    assert_eq!(Category::from_index(0), Some(Category::Setosa));
    assert_eq!(Category::from_index(1), Some(Category::Versicolor));
    assert_eq!(Category::from_index(2), Some(Category::Virginica));
    assert_eq!(Category::from_index(3), None);
    assert_eq!(Category::from_index(u32::MAX), None);
    assert_eq!(Category::Setosa.name(), "setosa");
    assert_eq!(Category::Versicolor.name(), "versicolor");
    assert_eq!(Category::Virginica.name(), "virginica");
}

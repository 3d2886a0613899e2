//! The fixed decision tree over four scaled measurements.

use vstd::prelude::*;

verus! {

/// Category index of setosa.
pub const SETOSA: u32 = 0;

/// Category index of versicolor.
pub const VERSICOLOR: u32 = 1;

/// Category index of virginica.
pub const VIRGINICA: u32 = 2;

/// Four measurements of one flower, each in hundredths of a unit. No
/// range is imposed on them: every quadruple is classified.
#[derive(Clone, Copy, Debug, PartialEq, Eq, Structural)]
pub struct ClassificationInput {
    pub sepal_length: u32,
    pub sepal_width: u32,
    pub petal_length: u32,
    pub petal_width: u32,
}

/// One of the three species that the tree tells apart.
#[derive(Clone, Copy, Debug, PartialEq, Eq, Structural)]
pub enum Category {
    Setosa,
    Versicolor,
    Virginica,
}

/// The measurements on which the tree answers setosa: a petal no wider
/// than 80.
pub open spec fn is_setosa(sepal_length: u32, petal_length: u32, petal_width: u32) -> bool {
    petal_width <= 80
}

/// The measurements on which the tree answers versicolor. They fall in
/// three regions of the petal-width axis above 80.
pub open spec fn is_versicolor(sepal_length: u32, petal_length: u32, petal_width: u32) -> bool {
    ||| 80 < petal_width <= 165 && petal_length <= 495
    ||| 155 < petal_width <= 175 && petal_length > 495 && sepal_length <= 695
    ||| 175 < petal_width && petal_length <= 485 && sepal_length <= 595
}

/// The category that the tree assigns to four measurements. The sepal
/// width takes no part in it.
pub open spec fn category_of(
    sepal_length: u32,
    sepal_width: u32,
    petal_length: u32,
    petal_width: u32,
) -> u32 {
    if is_setosa(sepal_length, petal_length, petal_width) {
        SETOSA
    } else if is_versicolor(sepal_length, petal_length, petal_width) {
        VERSICOLOR
    } else {
        VIRGINICA
    }
}

/// Classifies four measurements, each in hundredths of a unit, by the
/// fixed threshold tree. Total: every quadruple gets a category.
pub fn predict(sepal_length: u32, sepal_width: u32, petal_length: u32, petal_width: u32) -> (category: u32)
    ensures
        category == category_of(sepal_length, sepal_width, petal_length, petal_width),
        category <= 2,
{
    if petal_width <= 80 {
        0
    } else if petal_width <= 175 {
        if petal_length <= 495 {
            if petal_width <= 165 {
                1
            } else {
                2
            }
        } else if petal_width <= 155 {
            2
        } else if sepal_length <= 695 {
            1
        } else {
            2
        }
    } else if petal_length <= 485 {
        if sepal_length <= 595 {
            1
        } else {
            2
        }
    } else {
        2
    }
}

impl ClassificationInput {
    /// The category that the tree assigns to these measurements.
    pub open spec fn category(self) -> u32 {
        category_of(self.sepal_length, self.sepal_width, self.petal_length, self.petal_width)
    }

    /// Classifies these measurements.
    pub fn classify(&self) -> (species: Category)
        ensures
            species.index() == self.category(),
    {
        let index = predict(self.sepal_length, self.sepal_width, self.petal_length, self.petal_width);
        if index == 0 {
            Category::Setosa
        } else if index == 1 {
            Category::Versicolor
        } else {
            Category::Virginica
        }
    }
}

impl Category {
    /// The index under which the category is committed.
    pub open spec fn index(self) -> u32 {
        match self {
            Category::Setosa => SETOSA,
            Category::Versicolor => VERSICOLOR,
            Category::Virginica => VIRGINICA,
        }
    }

    /// The species name.
    pub open spec fn label(self) -> Seq<char> {
        match self {
            Category::Setosa => "setosa"@,
            Category::Versicolor => "versicolor"@,
            Category::Virginica => "virginica"@,
        }
    }

    /// The category with the given index, if it is one of the three.
    pub open spec fn with_index(index: u32) -> Option<Category> {
        if index == SETOSA {
            Some(Category::Setosa)
        } else if index == VERSICOLOR {
            Some(Category::Versicolor)
        } else if index == VIRGINICA {
            Some(Category::Virginica)
        } else {
            None
        }
    }

    /// The index under which the category is committed.
    pub fn to_index(self) -> (index: u32)
        ensures
            index == self.index(),
    {
        match self {
            Category::Setosa => 0,
            Category::Versicolor => 1,
            Category::Virginica => 2,
        }
    }

    /// Reads a committed index. Indices above 2 name no category.
    pub fn from_index(index: u32) -> (species: Option<Category>)
        ensures
            species == Category::with_index(index),
            species is Some <==> index <= 2,
            species matches Some(c) ==> c.index() == index,
    {
        if index == 0 {
            Some(Category::Setosa)
        } else if index == 1 {
            Some(Category::Versicolor)
        } else if index == 2 {
            Some(Category::Virginica)
        } else {
            None
        }
    }

    /// The species name, in lower case.
    pub fn name(self) -> (text: &'static str)
        ensures
            text@ == self.label(),
    {
        match self {
            Category::Setosa => "setosa",
            Category::Versicolor => "versicolor",
            Category::Virginica => "virginica",
        }
    }
}

/// Equal measurements get equal categories: the category is a function
/// of the quadruple and of nothing else.
pub proof fn lemma_predict_deterministic(first: ClassificationInput, second: ClassificationInput)
    requires
        first == second,
    ensures
        first.category() == second.category(),
{
}

/// Every quadruple gets one of the three categories.
pub proof fn lemma_category_in_range(input: ClassificationInput)
    ensures
        input.category() <= 2,
        Category::with_index(input.category()) is Some,
{
}

/// The sepal width has no say: two quadruples that differ in it alone
/// get the same category.
pub proof fn lemma_sepal_width_ignored(first: ClassificationInput, second: ClassificationInput)
    requires
        first.sepal_length == second.sepal_length,
        first.petal_length == second.petal_length,
        first.petal_width == second.petal_width,
    ensures
        first.category() == second.category(),
{
}

} // verus!

use vstd::prelude::*;

use crate::geometry::{
    circle_error, circle_model, generate_polygon_approximating_circle, generate_rectangle,
    generate_triangle, lemma_circle_fan, lemma_rectangle_covers_corners, lemma_triangle_in_range,
    rectangle_model, triangle_model, ConfigError, Radius, Shape, ShapeModel,
};

verus! {

/// One of the figures that the viewer can show.
#[derive(Clone, Copy, Debug, PartialEq, Eq, Structural)]
pub enum ShapeKind {
    Triangle,
    Rectangle,
    /// A regular polygon that stands in for a circle.
    Circle { segments: u16, radius: Radius },
}

impl ShapeKind {
    /// Why this kind cannot be generated, if it cannot.
    pub open spec fn error(self) -> Option<ConfigError> {
        match self {
            ShapeKind::Circle { segments, radius } => circle_error(segments, radius),
            _ => None,
        }
    }

    pub open spec fn is_valid(self) -> bool {
        self.error() is None
    }

    /// The shape that this kind generates.
    pub open spec fn model(self) -> ShapeModel {
        match self {
            ShapeKind::Triangle => triangle_model(),
            ShapeKind::Rectangle => rectangle_model(),
            ShapeKind::Circle { segments, radius } => circle_model(segments, radius),
        }
    }

    pub fn check(&self) -> (r: Result<(), ConfigError>)
        ensures
            match self.error() {
                Some(e) => r == Err::<(), ConfigError>(e),
                None => r is Ok,
            },
    {
        match self {
            ShapeKind::Circle { segments, radius } => {
                if *segments < 3 {
                    Err(ConfigError::TooFewSegments)
                } else if !radius.check() {
                    Err(ConfigError::NonPositiveRadius)
                } else {
                    Ok(())
                }
            },
            _ => Ok(()),
        }
    }

    /// Builds the shape of this kind.
    pub fn generate(&self) -> (r: Shape)
        requires
            self.is_valid(),
        ensures
            r@ == self.model(),
    {
        match self {
            ShapeKind::Triangle => generate_triangle(),
            ShapeKind::Rectangle => generate_rectangle(),
            ShapeKind::Circle { segments, radius } => {
                match generate_polygon_approximating_circle(*segments, *radius) {
                    Ok(s) => s,
                    Err(_) => {
                        proof {
                            assert(false);
                        }
                        generate_triangle()
                    },
                }
            },
        }
    }
}

/// Every index that a valid kind generates names one of its vertices.
pub proof fn lemma_generated_indices_in_range(kind: ShapeKind)
    requires
        kind.is_valid(),
    ensures
        kind.model().wf(),
        kind.model().references_in_range(),
{
    match kind {
        ShapeKind::Triangle => lemma_triangle_in_range(),
        ShapeKind::Rectangle => lemma_rectangle_covers_corners(),
        ShapeKind::Circle { segments, radius } => lemma_circle_fan(segments, radius),
    }
}

/// The segment count of the standard circle.
pub const CIRCLE_SEGMENTS: u16 = 100;

/// The standard circle: a hundred segments, radius one half.
pub open spec fn standard_circle() -> ShapeKind {
    ShapeKind::Circle { segments: 100, radius: Radius { num: 1, den: 2 } }
}

pub open spec fn standard_kinds() -> Seq<ShapeKind> {
    seq![ShapeKind::Triangle, ShapeKind::Rectangle, standard_circle()]
}

/// A fixed, non-empty, ordered list of shape kinds, each of which can be
/// generated.
pub struct ShapeRegistry {
    kinds: Vec<ShapeKind>,
}

impl View for ShapeRegistry {
    type V = Seq<ShapeKind>;

    closed spec fn view(&self) -> Seq<ShapeKind> {
        self.kinds@
    }
}

pub open spec fn kinds_valid(kinds: Seq<ShapeKind>) -> bool {
    kinds.len() > 0 && forall|i: int| 0 <= i < kinds.len() ==> (#[trigger] kinds[i]).is_valid()
}

impl ShapeRegistry {
    pub open spec fn wf(&self) -> bool {
        kinds_valid(self@)
    }

    /// Accepts `kinds` as a registry, or gives the error of the first kind
    /// that cannot be generated.
    pub fn new(kinds: Vec<ShapeKind>) -> (r: Result<ShapeRegistry, ConfigError>)
        ensures
            r is Ok <==> kinds_valid(kinds@),
            r is Ok ==> r->Ok_0@ == kinds@ && r->Ok_0.wf(),
            kinds@.len() == 0 ==> r == Err::<ShapeRegistry, ConfigError>(ConfigError::EmptyRegistry),
            kinds@.len() > 0 && r is Err ==> exists|i: int|
                0 <= i < kinds@.len() && (forall|j: int| 0 <= j < i ==> (#[trigger] kinds@[j]).is_valid())
                    && kinds@[i].error() == Some(r->Err_0),
    {
        if kinds.len() == 0 {
            return Err(ConfigError::EmptyRegistry);
        }
        let mut i: usize = 0;
        while i < kinds.len()
            invariant
                i <= kinds@.len(),
                forall|j: int| 0 <= j < i ==> (#[trigger] kinds@[j]).is_valid(),
            decreases kinds@.len() - i,
        {
            match kinds[i].check() {
                Ok(()) => {},
                Err(e) => {
                    return Err(e);
                },
            }
            i = i + 1;
        }
        Ok(ShapeRegistry { kinds })
    }

    /// The viewer's own list: triangle, square, then a hundred-sided circle
    /// of radius one half.
    pub fn standard() -> (r: ShapeRegistry)
        ensures
            r@ == standard_kinds(),
            r.wf(),
    {
        let kinds = vec![
            ShapeKind::Triangle,
            ShapeKind::Rectangle,
            ShapeKind::Circle { segments: CIRCLE_SEGMENTS, radius: Radius { num: 1, den: 2 } },
        ];
        let r = ShapeRegistry { kinds };
        assert(r@ =~= standard_kinds());
        r
    }

    /// Number of registered kinds.
    pub fn count(&self) -> (r: usize)
        ensures
            r == self@.len(),
    {
        self.kinds.len()
    }

    /// The kind at position `index`.
    pub fn at(&self, index: usize) -> (r: ShapeKind)
        requires
            index < self@.len(),
        ensures
            r == self@[index as int],
    {
        self.kinds[index]
    }
}

} // verus!

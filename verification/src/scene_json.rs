use vstd::prelude::*;

verus! {

/// The material kinds a custom JSON scene can name.
#[derive(Debug, Clone, Copy, PartialEq, Eq, Structural)]
pub enum MaterialDescKind {
    Lambertian,
    Metal,
    Dielectric,
    DiffuseLight,
    Dispersive,
}

/// The shape of one object of a custom JSON scene, with what validation
/// reads of it: for a sphere, whether its radius is positive (a radius that
/// is not `<= 0`).
#[derive(Debug, Clone, Copy, PartialEq, Eq, Structural)]
pub enum ObjectShape {
    Sphere { radius_positive: bool },
    Quad,
}

/// One object of a custom JSON scene as validation sees it.
#[derive(Debug, Clone, Copy, PartialEq, Eq, Structural)]
pub struct ObjectSummary {
    pub shape: ObjectShape,
    pub material: MaterialDescKind,
}

/// Why a parsed JSON scene was rejected.
#[derive(Debug, Clone, Copy, PartialEq, Eq, Structural)]
pub enum SceneCheckError {
    /// The scene lists no objects.
    NoObjects,
    /// A sphere's radius is zero or negative.
    NonPositiveRadius,
}

impl SceneCheckError {
    /// The message shown to the user.
    pub fn message(&self) -> (m: String)
        ensures
            m@ == (match *self {
                SceneCheckError::NoObjects => "scene must contain at least one object"@,
                SceneCheckError::NonPositiveRadius => "sphere radius must be positive"@,
            }),
    {
        match self {
            SceneCheckError::NoObjects => "scene must contain at least one object".to_owned(),
            SceneCheckError::NonPositiveRadius => "sphere radius must be positive".to_owned(),
        }
    }
}

/// Whether an object is a sphere whose radius is not positive.
pub open spec fn is_bad_sphere(o: ObjectSummary) -> bool {
    match o.shape {
        ObjectShape::Sphere { radius_positive } => !radius_positive,
        ObjectShape::Quad => false,
    }
}

/// Whether an object is a quad made of a light-emitting material: such quads
/// are also sampled directly as lights.
pub open spec fn is_light_quad(o: ObjectSummary) -> bool {
    o.shape == ObjectShape::Quad && o.material == MaterialDescKind::DiffuseLight
}

/// Positions of the light quads among `objs`, in increasing order.
pub open spec fn light_indices(objs: Seq<ObjectSummary>) -> Seq<usize>
    decreases objs.len(),
{
    if objs.len() == 0 {
        Seq::empty()
    } else {
        let rest = light_indices(objs.drop_last());
        if is_light_quad(objs.last()) {
            rest.push((objs.len() - 1) as usize)
        } else {
            rest
        }
    }
}

pub open spec fn spec_check_scene_objects(objs: Seq<ObjectSummary>) -> Result<
    Seq<usize>,
    SceneCheckError,
> {
    if objs.len() == 0 {
        Err(SceneCheckError::NoObjects)
    } else if exists|k: int| 0 <= k < objs.len() && is_bad_sphere(#[trigger] objs[k]) {
        Err(SceneCheckError::NonPositiveRadius)
    } else {
        Ok(light_indices(objs))
    }
}

/// Validates the objects of a parsed JSON scene and picks out the ones to
/// sample as lights: a scene needs at least one object and every sphere a
/// positive radius.
pub fn check_scene_objects(objects: &Vec<ObjectSummary>) -> (r: Result<Vec<usize>, SceneCheckError>)
    ensures
        match (r, spec_check_scene_objects(objects@)) {
            (Ok(v), Ok(s)) => v@ == s,
            (Err(e), Err(f)) => e == f,
            _ => false,
        },
        r == Err::<Vec<usize>, SceneCheckError>(SceneCheckError::NoObjects) <==> objects@.len() == 0,
        r == Err::<Vec<usize>, SceneCheckError>(SceneCheckError::NonPositiveRadius) <==> (objects@.len() > 0
            && exists|k: int|
            0 <= k < objects@.len() && #[trigger] objects@[k].shape == (ObjectShape::Sphere {
                radius_positive: false,
            })),
        r is Ok ==> forall|k: int|
            0 <= k < objects@.len() ==> (r->Ok_0@.contains(k as usize) <==> (objects@[k].shape
                == ObjectShape::Quad && objects@[k].material == MaterialDescKind::DiffuseLight)),
{
    let n = objects.len();
    proof {
        lemma_check_scene_objects_exact(objects@);
    }
    if n == 0 {
        return Err(SceneCheckError::NoObjects);
    }
    let mut lights: Vec<usize> = Vec::new();
    let mut i: usize = 0;
    while i < n
        invariant
            n == objects@.len(),
            0 <= i <= n,
            forall|k: int| 0 <= k < i ==> !is_bad_sphere(#[trigger] objects@[k]),
            lights@ == light_indices(objects@.take(i as int)),
        decreases n - i,
    {
        let o = objects[i];
        proof {
            assert(objects@.take(i + 1).drop_last() =~= objects@.take(i as int));
            assert(objects@.take(i + 1).last() == o);
        }
        match o.shape {
            ObjectShape::Sphere { radius_positive } => {
                if !radius_positive {
                    assert(is_bad_sphere(objects@[i as int]));
                    return Err(SceneCheckError::NonPositiveRadius);
                }
            },
            ObjectShape::Quad => {
                if o.material == MaterialDescKind::DiffuseLight {
                    lights.push(i);
                }
            },
        }
        i = i + 1;
    }
    assert(objects@.take(n as int) =~= objects@);
    Ok(lights)
}

/// Every index the check hands back names a light quad of the scene.
pub proof fn lemma_light_indices_are_light_quads(objs: Seq<ObjectSummary>)
    requires
        objs.len() <= usize::MAX,
    ensures
        forall|k: int|
            0 <= k < light_indices(objs).len() ==> {
                let idx = #[trigger] light_indices(objs)[k];
                &&& 0 <= idx < objs.len()
                &&& is_light_quad(objs[idx as int])
            },
        light_indices(objs).len() <= objs.len(),
    decreases objs.len(),
{
    if objs.len() > 0 {
        let init = objs.drop_last();
        lemma_light_indices_are_light_quads(init);
        let rest = light_indices(init);
        let all = light_indices(objs);
        assert forall|k: int| 0 <= k < all.len() implies {
            let idx = #[trigger] all[k];
            &&& 0 <= idx < objs.len()
            &&& is_light_quad(objs[idx as int])
        } by {
            if k < rest.len() {
                assert(all[k] == rest[k]);
                assert(0 <= rest[k] < init.len());
                assert(objs[rest[k] as int] == init[rest[k] as int]);
            } else {
                assert(is_light_quad(objs.last()));
                assert(all[k] == (objs.len() - 1) as usize);
            }
        }
    }
}

/// A position is listed among the lights exactly when the object there is a
/// quad made of a light-emitting material; every object is examined, the
/// first and the last included.
pub proof fn lemma_light_indices_exact(objs: Seq<ObjectSummary>)
    requires
        objs.len() <= usize::MAX,
    ensures
        forall|k: int|
            0 <= k < objs.len() ==> (light_indices(objs).contains(k as usize) <==> (objs[k].shape
                == ObjectShape::Quad && objs[k].material == MaterialDescKind::DiffuseLight)),
    decreases objs.len(),
{
    if objs.len() > 0 {
        let init = objs.drop_last();
        lemma_light_indices_exact(init);
        lemma_light_indices_are_light_quads(init);
        let rest = light_indices(init);
        let all = light_indices(objs);
        let last = (objs.len() - 1) as usize;
        assert(!rest.contains(last)) by {
            if rest.contains(last) {
                let q = choose|q: int| 0 <= q < rest.len() && rest[q] == last;
                assert(0 <= rest[q] < init.len());
            }
        }
        assert forall|k: int| 0 <= k < objs.len() implies (all.contains(k as usize) <==> (objs[k].shape
            == ObjectShape::Quad && objs[k].material == MaterialDescKind::DiffuseLight)) by {
            if k < init.len() {
                assert(objs[k] == init[k]);
                assert((k as usize) != last);
                if is_light_quad(objs.last()) {
                    assert(all == rest.push(last));
                    if all.contains(k as usize) {
                        let q = choose|q: int| 0 <= q < all.len() && all[q] == k as usize;
                        if q < rest.len() {
                            assert(all[q] == rest[q]);
                        }
                    }
                    if rest.contains(k as usize) {
                        let q = choose|q: int| 0 <= q < rest.len() && rest[q] == k as usize;
                        assert(all[q] == rest[q]);
                    }
                }
            } else {
                assert(k as usize == last);
                if is_light_quad(objs.last()) {
                    assert(all[rest.len() as int] == last);
                } else {
                    assert(all == rest);
                }
            }
        }
    }
}

/// A scene is rejected as empty exactly when it lists no objects, and for a
/// non-positive radius exactly when it lists objects and some sphere, at any
/// position, lacks a positive radius; otherwise it is accepted with the
/// positions of exactly its light quads.
pub proof fn lemma_check_scene_objects_exact(objs: Seq<ObjectSummary>)
    requires
        objs.len() <= usize::MAX,
    ensures
        (spec_check_scene_objects(objs) == Err::<Seq<usize>, SceneCheckError>(SceneCheckError::NoObjects))
            <==> objs.len() == 0,
        (spec_check_scene_objects(objs) == Err::<Seq<usize>, SceneCheckError>(
            SceneCheckError::NonPositiveRadius,
        )) <==> (objs.len() > 0 && exists|k: int|
            0 <= k < objs.len() && #[trigger] objs[k].shape == (ObjectShape::Sphere { radius_positive: false })),
        spec_check_scene_objects(objs) is Ok ==> forall|k: int|
            0 <= k < objs.len() ==> (spec_check_scene_objects(objs)->Ok_0.contains(k as usize) <==> (
            objs[k].shape == ObjectShape::Quad && objs[k].material == MaterialDescKind::DiffuseLight)),
{
    lemma_light_indices_exact(objs);
    let bad = exists|k: int| 0 <= k < objs.len() && is_bad_sphere(#[trigger] objs[k]);
    let lit = exists|k: int|
        0 <= k < objs.len() && #[trigger] objs[k].shape == (ObjectShape::Sphere { radius_positive: false });
    if bad {
        let k = choose|k: int| 0 <= k < objs.len() && is_bad_sphere(#[trigger] objs[k]);
        assert(objs[k].shape == (ObjectShape::Sphere { radius_positive: false }));
    }
    if lit {
        let k = choose|k: int|
            0 <= k < objs.len() && #[trigger] objs[k].shape == (ObjectShape::Sphere { radius_positive: false });
        assert(is_bad_sphere(objs[k]));
    }
}

} // verus!

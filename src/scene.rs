//! A scene: an ordered list of objects, and an ordered list of lights that
//! name objects of that list by index, so that a light is sampled directly
//! and still occludes and is hit as ordinary geometry.

use vstd::prelude::*;

verus! {

/// A scene over objects of type `O`. Every light index names an object.
///
/// Lights are kept by index into the object list rather than in a store of
/// their own: a light sampled for direct lighting is then also geometry that
/// rays hit and that casts shadows, and one value serves both roles. A light
/// source that should not occlude anything cannot be expressed; that is a
/// deliberate choice of this store.
pub struct Scene<O> {
    objects: Vec<O>,
    lights: Vec<usize>,
}

impl<O> Scene<O> {
    #[verifier::type_invariant]
    spec fn well_formed(self) -> bool {
        forall|k: int| 0 <= k < self.lights.len() ==> #[trigger] self.lights[k] < self.objects.len()
    }

    /// The objects, in the order they were added.
    pub closed spec fn spec_objects(self) -> Seq<O> {
        self.objects@
    }

    /// For each light, in the order lights were added, the index of its object.
    pub closed spec fn spec_lights(self) -> Seq<usize> {
        self.lights@
    }

    /// An empty scene.
    pub fn new() -> (r: Scene<O>)
        ensures
            r.spec_objects() == Seq::<O>::empty(),
            r.spec_lights() == Seq::<usize>::empty(),
    {
        Scene { objects: Vec::new(), lights: Vec::new() }
    }

    /// Adds an object that is not a light; returns its index.
    pub fn add_object(&mut self, o: O) -> (r: usize)
        requires
            old(self).spec_objects().len() < usize::MAX,
        ensures
            r == old(self).spec_objects().len(),
            final(self).spec_objects() == old(self).spec_objects().push(o),
            final(self).spec_lights() == old(self).spec_lights(),
    {
        proof {
            use_type_invariant(&*self);
        }
        let r = self.objects.len();
        let mut taken = Scene::new();
        std::mem::swap(&mut taken, self);
        let Scene { mut objects, lights } = taken;
        objects.push(o);
        *self = Scene { objects, lights };
        r
    }

    /// Adds an object that is also a light; returns its index.
    pub fn add_light(&mut self, o: O) -> (r: usize)
        requires
            old(self).spec_objects().len() < usize::MAX,
        ensures
            r == old(self).spec_objects().len(),
            final(self).spec_objects() == old(self).spec_objects().push(o),
            final(self).spec_lights() == old(self).spec_lights().push(r),
    {
        proof {
            use_type_invariant(&*self);
        }
        let r = self.objects.len();
        let mut taken = Scene::new();
        std::mem::swap(&mut taken, self);
        let Scene { mut objects, mut lights } = taken;
        objects.push(o);
        lights.push(r);
        *self = Scene { objects, lights };
        r
    }

    /// Makes the existing object at index `i` a light as well; an object may
    /// be marked more than once, and is then sampled once per mark.
    pub fn mark_light(&mut self, i: usize)
        requires
            i < old(self).spec_objects().len(),
        ensures
            final(self).spec_objects() == old(self).spec_objects(),
            final(self).spec_lights() == old(self).spec_lights().push(i),
    {
        proof {
            use_type_invariant(&*self);
        }
        let mut taken = Scene::new();
        std::mem::swap(&mut taken, self);
        let Scene { objects, mut lights } = taken;
        lights.push(i);
        *self = Scene { objects, lights };
    }

    pub fn object_count(&self) -> (r: usize)
        ensures
            r == self.spec_objects().len(),
    {
        self.objects.len()
    }

    pub fn light_count(&self) -> (r: usize)
        ensures
            r == self.spec_lights().len(),
    {
        self.lights.len()
    }

    /// The object at index `i`.
    pub fn object(&self, i: usize) -> (r: &O)
        requires
            i < self.spec_objects().len(),
        ensures
            *r == self.spec_objects()[i as int],
    {
        &self.objects[i]
    }

    /// The index of the object that is the `k`-th light.
    pub fn light_index(&self, k: usize) -> (r: usize)
        requires
            k < self.spec_lights().len(),
        ensures
            r == self.spec_lights()[k as int],
            r < self.spec_objects().len(),
    {
        proof {
            use_type_invariant(self);
        }
        self.lights[k]
    }

    /// The object that is the `k`-th light.
    pub fn light(&self, k: usize) -> (r: &O)
        requires
            k < self.spec_lights().len(),
        ensures
            *r == self.spec_objects()[self.spec_lights()[k as int] as int],
    {
        proof {
            use_type_invariant(self);
        }
        &self.objects[self.lights[k]]
    }
}

} // verus!

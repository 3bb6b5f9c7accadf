//! The scene graph: immutable shared models, per-instance transforms, and the
//! preloaded file source models are read from.
//!
//! A model's mesh and material data live once in an asset table slot;
//! instances reference a model by its stable index and own nothing but their
//! transform, so mutating one instance can never touch another instance or
//! the shared mesh data.

use vstd::prelude::*;

verus! {

use crate::Error;
use crate::math::Vec3;

/// Mesh and material data as the asset loader hands it over: decoded, but not
/// yet checked or uploaded. The indices address vertices in triples, one
/// triangle each.
pub struct MeshData {
    pub vertex_count: u64,
    pub indices: Vec<u32>,
}

/// The mesh data is well-formed: it has vertices, whole triangles, and every
/// index addresses a vertex that exists.
pub open spec fn mesh_valid(m: MeshData) -> bool {
    &&& m.vertex_count > 0
    &&& m.indices@.len() % 3 == 0
    &&& forall|k: int| 0 <= k < m.indices@.len() ==> (m.indices@[k] as int) < m.vertex_count as int
}

/// An immutable, shareable mesh + material bundle, held in an asset table
/// slot and referenced by instances through its stable `index`.
#[derive(Clone, Copy, Debug, PartialEq, Eq, Structural)]
pub struct Model {
    /// Stable slot identity in the asset table.
    pub index: u64,
    pub vertex_count: u64,
    pub triangle_count: u64,
    /// Handle to the material/texture binding the host created for this mesh.
    pub texture: u64,
}

/// An orientation: a rotation by `angle_mdeg` thousandths of a degree about
/// `axis`.
#[derive(Clone, Copy, Debug, PartialEq, Eq, Structural)]
pub struct Rotation {
    pub axis: Vec3,
    pub angle_mdeg: i64,
}

/// A placement of a shared model in the scene: a display name and an
/// exclusively owned transform. Many instances may reference one model.
#[derive(Debug)]
pub struct Instance {
    /// Index of the shared model this instance displays.
    pub model: u64,
    pub name: String,
    pub position: Vec3,
    pub rotation: Rotation,
    /// Uniform scale, fixed-point thousandths.
    pub scale: i64,
}

impl Model {
    /// Check decoded mesh data and build the model record for an asset table
    /// slot; malformed data is rejected with `ParseError`, and nothing else
    /// is.
    pub fn from_mesh(index: u64, mesh: &MeshData, texture: u64) -> (r: Result<Model, Error>)
        ensures
            r matches Ok(m) ==> mesh_valid(*mesh) && m == (Model {
                index,
                vertex_count: mesh.vertex_count,
                triangle_count: (mesh.indices@.len() / 3) as u64,
                texture,
            }),
            r matches Err(e) ==> e == Error::ParseError && !mesh_valid(*mesh),
            mesh_valid(*mesh) ==> r is Ok,
    {
        if mesh.vertex_count == 0 {
            return Err(Error::ParseError);
        }
        if mesh.indices.len() % 3 != 0 {
            return Err(Error::ParseError);
        }
        let mut k: usize = 0;
        while k < mesh.indices.len()
            invariant
                k <= mesh.indices@.len(),
                forall|j: int| 0 <= j < k ==> (mesh.indices@[j] as int) < mesh.vertex_count as int,
            decreases mesh.indices@.len() - k,
        {
            if mesh.indices[k] as u64 >= mesh.vertex_count {
                return Err(Error::ParseError);
            }
            k += 1;
        }
        Ok(
            Model {
                index,
                vertex_count: mesh.vertex_count,
                triangle_count: (mesh.indices.len() / 3) as u64,
                texture,
            },
        )
    }

    /// Place this model in the scene. Pure and always succeeding: no file is
    /// read, no GPU call is made, and the shared mesh data is untouched.
    pub fn instantiate(&self, name: String, position: Vec3, rotation: Rotation, scale: i64) -> (i:
        Instance)
        ensures
            i.model == self.index,
            i.name == name,
            i.position == position,
            i.rotation == rotation,
            i.scale == scale,
    {
        Instance { model: self.index, name, position, rotation, scale }
    }
}

impl Instance {
    /// Move this instance; its model reference, name, rotation and scale are
    /// untouched, as is everything this instance does not own.
    pub fn set_position(&mut self, p: Vec3)
        ensures
            final(self).position == p,
            final(self).model == old(self).model,
            final(self).name == old(self).name,
            final(self).rotation == old(self).rotation,
            final(self).scale == old(self).scale,
    {
        self.position = p;
    }

    /// Reorient this instance; every other field is untouched.
    pub fn set_rotation(&mut self, r: Rotation)
        ensures
            final(self).rotation == r,
            final(self).model == old(self).model,
            final(self).name == old(self).name,
            final(self).position == old(self).position,
            final(self).scale == old(self).scale,
    {
        self.rotation = r;
    }

    /// Rescale this instance; every other field is untouched.
    pub fn set_scale(&mut self, s: i64)
        ensures
            final(self).scale == s,
            final(self).model == old(self).model,
            final(self).name == old(self).name,
            final(self).position == old(self).position,
            final(self).rotation == old(self).rotation,
    {
        self.scale = s;
    }
}

/// Byte-for-byte equality of two byte strings.
pub fn bytes_eq(a: &Vec<u8>, b: &Vec<u8>) -> (r: bool)
    ensures
        r == (a@ == b@),
{
    if a.len() != b.len() {
        return false;
    }
    let mut k: usize = 0;
    while k < a.len()
        invariant
            a@.len() == b@.len(),
            k <= a@.len(),
            forall|j: int| 0 <= j < k ==> a@[j] == b@[j],
        decreases a@.len() - k,
    {
        if a[k] != b[k] {
            return false;
        }
        k += 1;
    }
    proof {
        assert(a@ =~= b@);
    }
    true
}

/// The bytes of every file the scene may read, keyed by path, populated ahead
/// of time. Platforms with direct file access and platforms that must prefetch
/// are served uniformly: the core only ever asks for the bytes of a path.
pub struct FileSource {
    pub entries: Vec<(Vec<u8>, Vec<u8>)>,
}

impl FileSource {
    /// Some entry carries `path`.
    pub open spec fn contains_path(self, path: Seq<u8>) -> bool {
        exists|i: int| 0 <= i < self.entries@.len() && self.entries@[i].0@ == path
    }

    /// The first entry for `path` carries exactly `contents`.
    pub open spec fn first_match(self, path: Seq<u8>, contents: Seq<u8>) -> bool {
        exists|i: int|
            {
                &&& 0 <= i < self.entries@.len()
                &&& self.entries@[i].0@ == path
                &&& self.entries@[i].1@ == contents
                &&& forall|j: int| 0 <= j < i ==> self.entries@[j].0@ != path
            }
    }

    /// An empty source.
    pub fn new() -> (s: FileSource)
        ensures
            s.entries@.len() == 0,
    {
        FileSource { entries: Vec::new() }
    }

    /// Preload one file.
    pub fn add(&mut self, path: Vec<u8>, contents: Vec<u8>)
        ensures
            final(self).entries@ == old(self).entries@.push((path, contents)),
    {
        self.entries.push((path, contents));
    }

    /// The bytes of the first entry for `path`, or `None` when no entry
    /// carries it.
    pub fn get(&self, path: &Vec<u8>) -> (r: Option<&Vec<u8>>)
        ensures
            r matches Some(c) ==> self.first_match(path@, c@),
            r is None ==> !self.contains_path(path@),
    {
        let mut i: usize = 0;
        while i < self.entries.len()
            invariant
                i <= self.entries@.len(),
                forall|j: int| 0 <= j < i ==> self.entries@[j].0@ != path@,
            decreases self.entries@.len() - i,
        {
            if bytes_eq(&self.entries[i].0, path) {
                return Some(&self.entries[i].1);
            }
            i += 1;
        }
        None
    }

    /// Read the bytes for a path; a path absent from the source is reported
    /// as `AssetNotFound`, exactly when it is absent.
    pub fn fetch(&self, path: &Vec<u8>) -> (r: Result<&Vec<u8>, Error>)
        ensures
            r matches Ok(c) ==> self.first_match(path@, c@),
            r matches Err(e) ==> e == Error::AssetNotFound && !self.contains_path(path@),
            self.contains_path(path@) ==> r is Ok,
    {
        match self.get(path) {
            Some(c) => Ok(c),
            None => Err(Error::AssetNotFound),
        }
    }
}

} // verus!

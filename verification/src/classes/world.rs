//! The map itself, as an entity.
use vstd::prelude::*;

use crate::io::Value;
use crate::scalar::{num, origin, Scalar, Vector, MINUS_ONE};
use crate::text::{atoi, integer_of, same_name};

verus! {

/// The map itself.
#[derive(Debug)]
pub struct World {
    pub sky_name: Option<String>,
    pub world_mins: Vector,
    pub world_maxs: Vector,
    pub max_prop_screen_width: Scalar,
    pub max_blob_count: i32,
    pub detail_material: Option<String>,
}

impl World {
    pub open spec fn fresh() -> World {
        World {
            sky_name: None,
            world_mins: origin(),
            world_maxs: origin(),
            max_prop_screen_width: num(MINUS_ONE),
            max_blob_count: 0,
            detail_material: None,
        }
    }

    #[verifier::opaque]
    pub open spec fn keyed(self, key: Seq<char>, value: Value) -> Option<World> {
        if same_name(key, "skyname"@) {
            Some(World { sky_name: Some(value.text), ..self })
        } else if same_name(key, "world_mins"@) {
            Some(World { world_mins: value.vector, ..self })
        } else if same_name(key, "world_maxs"@) {
            Some(World { world_maxs: value.vector, ..self })
        } else if same_name(key, "maxpropscreenwidth"@) {
            Some(World { max_prop_screen_width: value.number, ..self })
        } else if same_name(key, "maxblobcount"@) {
            Some(World { max_blob_count: integer_of(value.text@) as i32, ..self })
        } else if same_name(key, "detailmaterial"@) {
            Some(World { detail_material: Some(value.text), ..self })
        } else {
            None
        }
    }

    pub fn create() -> (r: World)
        ensures
            r == World::fresh(),
    {
        World {
            sky_name: None,
            world_mins: origin(),
            world_maxs: origin(),
            max_prop_screen_width: num(MINUS_ONE),
            max_blob_count: 0,
            detail_material: None,
        }
    }

    pub fn key_value(&mut self, key: &str, value: &Value) -> (r: bool)
        ensures
            r == old(self).keyed(key@, *value) is Some,
            *final(self) == old(self).keyed(key@, *value).unwrap_or(*old(self)),
    {
        reveal(World::keyed);
        if key.eq_ignore_ascii_case("skyname") {
            self.sky_name = Some(value.text.clone());
        } else if key.eq_ignore_ascii_case("world_mins") {
            self.world_mins = value.vector;
        } else if key.eq_ignore_ascii_case("world_maxs") {
            self.world_maxs = value.vector;
        } else if key.eq_ignore_ascii_case("maxpropscreenwidth") {
            self.max_prop_screen_width = value.number;
        } else if key.eq_ignore_ascii_case("maxblobcount") {
            self.max_blob_count = atoi(value.text.as_str());
        } else if key.eq_ignore_ascii_case("detailmaterial") {
            self.detail_material = Some(value.text.clone());
        } else {
            return false;
        }
        true
    }
}

} // verus!

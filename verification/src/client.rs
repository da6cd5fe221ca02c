//! Client-side bookkeeping around a connection: the game-profile
//! properties attached to a player.

use crate::packets::types::profile::Property;
use vstd::prelude::*;
use vstd::string::StringExecFns;

verus! {

/// Whether position `i` holds the first property named "textures".
pub open spec fn spec_textures_at(s: Seq<Property>, i: int) -> bool {
    &&& 0 <= i < s.len()
    &&& s[i].name@ == "textures"@
    &&& forall|j: int| 0 <= j < i ==> s[j].name@ != "textures"@
}

/// Whether any property is named "textures".
pub open spec fn spec_has_textures(s: Seq<Property>) -> bool {
    exists|i: int| 0 <= i < s.len() && s[i].name@ == "textures"@
}

/// Player properties from the game profile.
#[derive(Debug)]
pub struct Properties(pub Vec<Property>);

impl Properties {
    fn textures_index(&self) -> (r: Option<usize>)
        ensures
            match r {
                Some(i) => spec_textures_at(self.0@, i as int),
                None => !spec_has_textures(self.0@),
            },
    {
        let needle = String::from_str("textures");
        let mut i: usize = 0;
        while i < self.0.len()
            invariant
                i <= self.0@.len(),
                needle@ == "textures"@,
                forall|j: int| 0 <= j < i ==> self.0@[j].name@ != "textures"@,
            decreases self.0@.len() - i,
        {
            if self.0[i].name == needle {
                return Some(i);
            }
            i = i + 1;
        }
        None
    }

    /// Finds the property with the name "textures".
    pub fn textures(&self) -> (r: Option<&Property>)
        ensures
            match r {
                Some(p) => exists|i: int| spec_textures_at(self.0@, i) && *p == self.0@[i],
                None => !spec_has_textures(self.0@),
            },
    {
        match self.textures_index() {
            Some(i) => Some(&self.0[i]),
            None => None,
        }
    }

    /// Returns the value of the "textures" property: a base64-encoded
    /// JSON string that holds the skin and cape addresses.
    pub fn skin(&self) -> (r: Option<&str>)
        ensures
            match r {
                Some(v) => exists|i: int| spec_textures_at(self.0@, i) && v@ == self.0@[i].value@,
                None => !spec_has_textures(self.0@),
            },
    {
        match self.textures_index() {
            Some(i) => Some(self.0[i].value.as_str()),
            None => None,
        }
    }

    /// Sets the value of the "textures" property, or adds one if none
    /// exists. The signature must come from the profile's issuer for
    /// other clients to accept the skin.
    pub fn set_skin(&mut self, skin: String, signature: String)
        ensures
            spec_has_textures(old(self).0@) ==> ({
                &&& final(self).0@.len() == old(self).0@.len()
                &&& forall|i: int, j: int|
                    spec_textures_at(old(self).0@, i) && 0 <= j < old(self).0@.len() && j != i
                        ==> final(self).0@[j] == old(self).0@[j]
                &&& forall|i: int|
                    spec_textures_at(old(self).0@, i) ==> final(self).0@[i].name@ == "textures"@
                        && final(self).0@[i].value@ == skin@ && (final(self).0@[i].signature
                        matches Some(g) && g@ == signature@)
            }),
            !spec_has_textures(old(self).0@) ==> ({
                &&& final(self).0@.len() == old(self).0@.len() + 1
                &&& final(self).0@.take(old(self).0@.len() as int) == old(self).0@
                &&& final(self).0@.last().name@ == "textures"@
                &&& final(self).0@.last().value@ == skin@
                &&& (final(self).0@.last().signature matches Some(g) && g@ == signature@)
            }),
    {
        match self.textures_index() {
            Some(i) => {
                let mut p = self.0.remove(i);
                p.value = skin;
                p.signature = Some(signature);
                self.0.insert(i, p);
                proof {
                    assert(self.0@.subrange(0, i as int) =~= old(self).0@.subrange(0, i as int));
                    assert(self.0@.subrange(i as int + 1, self.0@.len() as int) =~= old(
                        self,
                    ).0@.subrange(i as int + 1, old(self).0@.len() as int));
                    assert forall|k: int, j: int|
                        spec_textures_at(old(self).0@, k) && 0 <= j < old(self).0@.len() && j
                            != k implies self.0@[j] == old(self).0@[j] by {
                        assert(k == i as int);
                    }
                }
            },
            None => {
                let name = String::from_str("textures");
                self.0.push(Property { name, value: skin, signature: Some(signature) });
                proof {
                    assert(self.0@.take(old(self).0@.len() as int) =~= old(self).0@);
                }
            },
        }
    }
}

} // verus!

//! The layers of a galactic map: drawings, as text, from which the generator
//! reads the regions of a galaxy. A drawing that names an image, or that
//! declares a document type, can make the generator read a file; such a
//! layer is refused, so that what is made depends on the request alone.

use vstd::prelude::*;
use crate::text::{mentions, mentions_word};

verus! {

/// The letters that the names of the two elements that load an image share:
/// `mage`.
pub open spec fn image_word() -> Seq<u8> {
    seq![0x6du8, 0x61u8, 0x67u8, 0x65u8]
}

/// The opening of the declaration of a document type: `<!DOCTYPE`.
pub open spec fn doctype_word() -> Seq<u8> {
    seq![0x3cu8, 0x21u8, 0x44u8, 0x4fu8, 0x43u8, 0x54u8, 0x59u8, 0x50u8, 0x45u8]
}

/// Whether the layer names no image and declares no document type.
pub open spec fn layer_is_closed(layer: Seq<u8>) -> bool {
    !mentions(layer, image_word()) && !mentions(layer, doctype_word())
}

/// Whether every layer names no image and declares no document type.
pub open spec fn layers_are_closed(layers: Seq<Seq<u8>>) -> bool {
    forall|i: int| 0 <= i < layers.len() ==> layer_is_closed(#[trigger] layers[i])
}

/// Whether the layer at `place` is the first that is not closed.
pub open spec fn is_first_open_layer(layers: Seq<Seq<u8>>, place: int) -> bool {
    &&& 0 <= place < layers.len()
    &&& !layer_is_closed(layers[place])
    &&& forall|k: int| 0 <= k < place ==> layer_is_closed(#[trigger] layers[k])
}

/// The place of the first layer that is not closed, where there is one.
pub open spec fn first_open_layer(layers: Seq<Seq<u8>>) -> int {
    choose|place: int| is_first_open_layer(layers, place)
}

/// The letters `mage`.
pub fn image_letters() -> (word: Vec<u8>)
    ensures
        word@ == image_word(),
{
    let mut word: Vec<u8> = Vec::new();
    word.push(0x6d);
    word.push(0x61);
    word.push(0x67);
    word.push(0x65);
    assert(word@ =~= image_word());
    word
}

/// The letters `<!DOCTYPE`.
pub fn doctype_letters() -> (word: Vec<u8>)
    ensures
        word@ == doctype_word(),
{
    let mut word: Vec<u8> = Vec::new();
    word.push(0x3c);
    word.push(0x21);
    word.push(0x44);
    word.push(0x4f);
    word.push(0x43);
    word.push(0x54);
    word.push(0x59);
    word.push(0x50);
    word.push(0x45);
    assert(word@ =~= doctype_word());
    word
}

/// Decides whether the layer names no image and declares no document type.
pub fn layer_loads_nothing(layer: &Vec<u8>) -> (closed: bool)
    ensures
        closed == layer_is_closed(layer@),
{
    let image = image_letters();
    let doctype = doctype_letters();
    !mentions_word(layer, &image) && !mentions_word(layer, &doctype)
}

/// Finds the first layer that is not closed: `None` exactly where every
/// layer is closed.
pub fn find_open_layer(layers: &Vec<Vec<u8>>) -> (found: Option<usize>)
    ensures
        found is None <==> layers_are_closed(layers.deep_view()),
        found matches Some(place) ==> place == first_open_layer(layers.deep_view()),
        found matches Some(place) ==> is_first_open_layer(layers.deep_view(), place as int),
{
    let mut i: usize = 0;
    while i < layers.len()
        invariant
            i <= layers.len(),
            layers.deep_view().len() == layers.len(),
            forall|k: int| 0 <= k < i ==> layer_is_closed(#[trigger] layers.deep_view()[k]),
        decreases layers.len() - i,
    {
        assert(layers.deep_view()[i as int] == layers@[i as int]@);
        if !layer_loads_nothing(&layers[i]) {
            proof {
                let all = layers.deep_view();
                assert(is_first_open_layer(all, i as int));
                let chosen = first_open_layer(all);
                assert(is_first_open_layer(all, chosen));
                if chosen < i {
                    assert(layer_is_closed(all[chosen]));
                } else if i < chosen {
                    assert(layer_is_closed(all[i as int]));
                }
            }
            return Some(i);
        }
        i += 1;
    }
    None
}

} // verus!

//! A purely functional lens library: read and update a field nested deep
//! inside an immutable data structure without hand-writing the
//! reconstruction code for every level of nesting.
//!
//! The crate is organised around a small accessor algebra:
//!
//! * [`LensPath`] identifies the location of a target field relative to its
//!   root structure as an ordered sequence of hop identifiers.
//! * The [`Lens`], [`RefLens`] and [`ValueLens`] traits are the three
//!   capability tiers an accessor may implement, together with the algebraic
//!   laws every accessor must obey.
//! * [`compose`] chains an outer accessor with an inner one, concatenating
//!   their paths.
//! * The transform algebra ([`Transform`] and its constructors) wraps an
//!   accessor and a pure function into a reusable structure-to-structure
//!   operation.

mod lens;
mod lens_tx;
mod path;
pub mod sample;
mod transform;
mod vec_lens;

pub use lens::compose;
pub use lens::lemma_composed_path;
pub use lens::lemma_get_set_round_trip;
pub use lens::lemma_set_idempotent;
pub use lens::modify;
pub use lens::mutate_with_fn;
pub use lens::try_get_ref;
pub use lens::try_set;
pub use lens::ComposedLens;
pub use lens::Lens;
pub use lens::LensError;
pub use lens::RefLens;
pub use lens::ValueLens;
pub use lens_tx::decrement_tx;
pub use lens_tx::increment_tx;
pub use lens_tx::mod_tx;
pub use lens_tx::not_tx;
pub use lens_tx::set_tx;
pub use lens_tx::Integral;
pub use lens_tx::LensDecrementTransform;
pub use lens_tx::LensIncrementTransform;
pub use lens_tx::LensModifyTransform;
pub use lens_tx::LensNotTransform;
pub use lens_tx::LensSetTransform;
pub use lens_tx::Negate;
pub use path::dec_chars;
pub use path::digit_char;
pub use path::ids_join;
pub use path::ids_of;
pub use path::lemma_concat_associative;
pub use path::lemma_lex_cmp_equal;
pub use path::lex_cmp;
pub use path::path_display_chars;
pub use path::LensPath;
pub use path::LensPathElement;
pub use transform::composed_tx;
pub use transform::fn_tx;
pub use transform::identity_tx;
pub use transform::lemma_composed_tx_associative;
pub use transform::lemma_identity_tx_unit;
pub use transform::ComposedTransform;
pub use transform::FnTransform;
pub use transform::IdentityTransform;
pub use transform::Transform;
pub use vec_lens::lemma_vec_lens_round_trip;
pub use vec_lens::lemma_vec_lens_set_idempotent;
pub use vec_lens::vec_lens;
pub use vec_lens::VecLens;

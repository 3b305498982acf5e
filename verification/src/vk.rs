//! The JSON verifying-key document and its conversion into typed curve
//! parameters.
//!
//! The document itself arrives as plain data (deserializing the JSON text is
//! I/O-side work outside the library); everything structural — coordinate
//! array shapes, decimal parsing, the `IC` length rule — is checked here.

use vstd::prelude::*;
use crate::curve::{G1Point, G2Point};
use crate::errors::ZkError;
use crate::field::FieldElement;
use crate::numeric::{base_modulus, dec_ok, dec_val};

verus! {

/// The verifying-key document of the circuit toolchain: `protocol`,
/// `curve`, the public-input count, one G1 point, three G2 points, and the
/// ordered `IC` array whose length must be the public-input count plus one.
pub struct SnarkjsVerificationKey {
    pub protocol: String,
    pub curve: String,
    pub n_public: usize,
    pub vk_alpha_1: Vec<String>,
    pub vk_beta_2: Vec<Vec<String>>,
    pub vk_gamma_2: Vec<Vec<String>>,
    pub vk_delta_2: Vec<Vec<String>>,
    pub vk_alphabeta_12: Vec<Vec<Vec<String>>>,
    pub ic: Vec<Vec<String>>,
}

/// Typed verifying-key material.  `gamma_abc_g1` is ordered: index 0 is the
/// constant term and index `i + 1` corresponds to public input `i`.
pub struct VerifyingKey {
    pub alpha_g1: G1Point,
    pub beta_g2: G2Point,
    pub gamma_g2: G2Point,
    pub delta_g2: G2Point,
    pub gamma_abc_g1: Vec<G1Point>,
}

impl VerifyingKey {
    pub open spec fn wf(&self) -> bool {
        &&& self.alpha_g1.wf()
        &&& self.beta_g2.wf()
        &&& self.gamma_g2.wf()
        &&& self.delta_g2.wf()
        &&& self.gamma_abc_g1@.len() >= 1
        &&& forall|i: int|
            0 <= i < self.gamma_abc_g1@.len() ==> (#[trigger] self.gamma_abc_g1@[i]).wf()
    }

    /// Every point of the key satisfies its curve equation (or is the
    /// infinity sentinel).
    pub open spec fn all_on_curve(&self) -> bool {
        &&& self.alpha_g1.on_curve()
        &&& self.beta_g2.on_curve()
        &&& self.gamma_g2.on_curve()
        &&& self.delta_g2.on_curve()
        &&& forall|i: int|
            0 <= i < self.gamma_abc_g1@.len() ==> (#[trigger] self.gamma_abc_g1@[i]).on_curve()
    }

    /// The number of public inputs this key verifies.
    pub open spec fn spec_num_inputs(&self) -> int {
        self.gamma_abc_g1@.len() - 1
    }
}

/// A G1 coordinate array is two decimal strings (extra entries are
/// tolerated and ignored, as the toolchain emits a projective third
/// coordinate).
pub open spec fn g1_coords_ok(c: Seq<String>) -> bool {
    c.len() >= 2 && dec_ok(c[0]@) && dec_ok(c[1]@)
}

/// A G2 coordinate array is a 2x2 nesting `[[x_c0, x_c1], [y_c0, y_c1]]` of
/// decimal strings.
pub open spec fn g2_coords_ok(c: Seq<Vec<String>>) -> bool {
    &&& c.len() >= 2
    &&& c[0]@.len() >= 2
    &&& c[1]@.len() >= 2
    &&& dec_ok(c[0]@[0]@)
    &&& dec_ok(c[0]@[1]@)
    &&& dec_ok(c[1]@[0]@)
    &&& dec_ok(c[1]@[1]@)
}

impl SnarkjsVerificationKey {
    /// Every coordinate array of the document has the right shape and holds
    /// decimal strings.
    pub open spec fn spec_shapes_ok(&self) -> bool {
        &&& g1_coords_ok(self.vk_alpha_1@)
        &&& g2_coords_ok(self.vk_beta_2@)
        &&& g2_coords_ok(self.vk_gamma_2@)
        &&& g2_coords_ok(self.vk_delta_2@)
        &&& forall|i: int| 0 <= i < self.ic@.len() ==> g1_coords_ok((#[trigger] self.ic@[i])@)
    }

    /// The `IC` length rule: public-input count plus one.
    pub open spec fn spec_ic_len_ok(&self) -> bool {
        self.ic@.len() == self.n_public + 1
    }

    /// `vk` holds exactly the values this document's decimal strings
    /// denote, reduced into the base field, with the `IC` order preserved.
    pub open spec fn spec_matches_doc(&self, vk: VerifyingKey) -> bool {
        &&& vk.gamma_abc_g1@.len() == self.n_public + 1
        &&& vk.alpha_g1.x.value() == dec_val(self.vk_alpha_1@[0]@) % base_modulus()
        &&& vk.alpha_g1.y.value() == dec_val(self.vk_alpha_1@[1]@) % base_modulus()
        &&& vk.beta_g2.x_c0.value() == dec_val(self.vk_beta_2@[0]@[0]@) % base_modulus()
        &&& vk.beta_g2.x_c1.value() == dec_val(self.vk_beta_2@[0]@[1]@) % base_modulus()
        &&& vk.beta_g2.y_c0.value() == dec_val(self.vk_beta_2@[1]@[0]@) % base_modulus()
        &&& vk.beta_g2.y_c1.value() == dec_val(self.vk_beta_2@[1]@[1]@) % base_modulus()
        &&& vk.gamma_g2.x_c0.value() == dec_val(self.vk_gamma_2@[0]@[0]@) % base_modulus()
        &&& vk.gamma_g2.x_c1.value() == dec_val(self.vk_gamma_2@[0]@[1]@) % base_modulus()
        &&& vk.gamma_g2.y_c0.value() == dec_val(self.vk_gamma_2@[1]@[0]@) % base_modulus()
        &&& vk.gamma_g2.y_c1.value() == dec_val(self.vk_gamma_2@[1]@[1]@) % base_modulus()
        &&& vk.delta_g2.x_c0.value() == dec_val(self.vk_delta_2@[0]@[0]@) % base_modulus()
        &&& vk.delta_g2.x_c1.value() == dec_val(self.vk_delta_2@[0]@[1]@) % base_modulus()
        &&& vk.delta_g2.y_c0.value() == dec_val(self.vk_delta_2@[1]@[0]@) % base_modulus()
        &&& vk.delta_g2.y_c1.value() == dec_val(self.vk_delta_2@[1]@[1]@) % base_modulus()
        &&& forall|i: int|
            0 <= i < vk.gamma_abc_g1@.len() ==> (#[trigger] vk.gamma_abc_g1@[i]).x.value()
                == dec_val(self.ic@[i]@[0]@) % base_modulus() && vk.gamma_abc_g1@[i].y.value()
                == dec_val(self.ic@[i]@[1]@) % base_modulus()
    }

    /// Every point the document's decimal strings denote satisfies its
    /// curve equation (or is the infinity sentinel).
    pub open spec fn spec_doc_on_curve(&self) -> bool {
        &&& crate::curve::spec_g1_on_curve(
            dec_val(self.vk_alpha_1@[0]@) % base_modulus(),
            dec_val(self.vk_alpha_1@[1]@) % base_modulus(),
        )
        &&& crate::curve::spec_g2_on_curve(
            dec_val(self.vk_beta_2@[0]@[0]@) % base_modulus(),
            dec_val(self.vk_beta_2@[0]@[1]@) % base_modulus(),
            dec_val(self.vk_beta_2@[1]@[0]@) % base_modulus(),
            dec_val(self.vk_beta_2@[1]@[1]@) % base_modulus(),
        )
        &&& crate::curve::spec_g2_on_curve(
            dec_val(self.vk_gamma_2@[0]@[0]@) % base_modulus(),
            dec_val(self.vk_gamma_2@[0]@[1]@) % base_modulus(),
            dec_val(self.vk_gamma_2@[1]@[0]@) % base_modulus(),
            dec_val(self.vk_gamma_2@[1]@[1]@) % base_modulus(),
        )
        &&& crate::curve::spec_g2_on_curve(
            dec_val(self.vk_delta_2@[0]@[0]@) % base_modulus(),
            dec_val(self.vk_delta_2@[0]@[1]@) % base_modulus(),
            dec_val(self.vk_delta_2@[1]@[0]@) % base_modulus(),
            dec_val(self.vk_delta_2@[1]@[1]@) % base_modulus(),
        )
        &&& forall|i: int|
            0 <= i < self.ic@.len() ==> crate::curve::spec_g1_on_curve(
                dec_val((#[trigger] self.ic@[i])@[0]@) % base_modulus(),
                dec_val(self.ic@[i]@[1]@) % base_modulus(),
            )
    }

    /// Parses a G1 point from two decimal coordinate strings; anything
    /// shorter or non-decimal is an invalid G1 point.
    pub fn parse_g1_point(coords: &Vec<String>) -> (r: Result<G1Point, ZkError>)
        ensures
            (r matches Ok(_)) <==> g1_coords_ok(coords@),
            r matches Ok(p) ==> p.wf() && p.x.value() == dec_val(coords@[0]@) % base_modulus()
                && p.y.value() == dec_val(coords@[1]@) % base_modulus(),
            r matches Err(e) ==> e matches ZkError::Format { .. },
    {
        if coords.len() < 2 {
            return Err(ZkError::Format { offset: 0 });
        }
        let x = match FieldElement::parse_decimal(coords[0].as_str()) {
            Ok(v) => v,
            Err(e) => { return Err(e) },
        };
        let y = match FieldElement::parse_decimal(coords[1].as_str()) {
            Ok(v) => v,
            Err(e) => { return Err(e) },
        };
        Ok(G1Point { x, y })
    }

    /// Parses a G2 point from the 2x2 nested array
    /// `[[x_c0, x_c1], [y_c0, y_c1]]`; any missing entry is an invalid G2
    /// point.
    pub fn parse_g2_point(coords: &Vec<Vec<String>>) -> (r: Result<G2Point, ZkError>)
        ensures
            (r matches Ok(_)) <==> g2_coords_ok(coords@),
            r matches Ok(p) ==> p.wf() && p.x_c0.value() == dec_val(coords@[0]@[0]@)
                % base_modulus() && p.x_c1.value() == dec_val(coords@[0]@[1]@) % base_modulus()
                && p.y_c0.value() == dec_val(coords@[1]@[0]@) % base_modulus() && p.y_c1.value()
                == dec_val(coords@[1]@[1]@) % base_modulus(),
            r matches Err(e) ==> e matches ZkError::Format { .. },
    {
        if coords.len() < 2 {
            return Err(ZkError::Format { offset: 0 });
        }
        if coords[0].len() < 2 || coords[1].len() < 2 {
            return Err(ZkError::Format { offset: 0 });
        }
        let x_c0 = match FieldElement::parse_decimal(coords[0][0].as_str()) {
            Ok(v) => v,
            Err(e) => { return Err(e) },
        };
        let x_c1 = match FieldElement::parse_decimal(coords[0][1].as_str()) {
            Ok(v) => v,
            Err(e) => { return Err(e) },
        };
        let y_c0 = match FieldElement::parse_decimal(coords[1][0].as_str()) {
            Ok(v) => v,
            Err(e) => { return Err(e) },
        };
        let y_c1 = match FieldElement::parse_decimal(coords[1][1].as_str()) {
            Ok(v) => v,
            Err(e) => { return Err(e) },
        };
        Ok(G2Point { x_c0, x_c1, y_c0, y_c1 })
    }

    /// Converts the document into typed verifying-key material.  The `IC`
    /// length is checked against the declared public-input count first — a
    /// document violating it is rejected here, at load — and every
    /// coordinate is parsed as a decimal field element.  No on-curve
    /// validation happens here; the engine performs it when the key is
    /// loaded for use.
    #[verifier::loop_isolation(false)]
    pub fn to_arkworks_vk(&self) -> (r: Result<VerifyingKey, ZkError>)
        ensures
            (r matches Ok(_)) <==> (self.spec_ic_len_ok() && self.spec_shapes_ok()),
            !self.spec_ic_len_ok() ==> r == Err::<VerifyingKey, ZkError>(
                ZkError::LengthMismatch { expected: self.n_public, actual: self.ic@.len() as usize },
            ),
            r matches Ok(vk) ==> vk.wf() && self.spec_matches_doc(vk),
    {
        if self.ic.len() == 0 || self.ic.len() - 1 != self.n_public {
            return Err(
                ZkError::LengthMismatch { expected: self.n_public, actual: self.ic.len() },
            );
        }
        let alpha_g1 = match Self::parse_g1_point(&self.vk_alpha_1) {
            Ok(v) => v,
            Err(e) => { return Err(e) },
        };
        let beta_g2 = match Self::parse_g2_point(&self.vk_beta_2) {
            Ok(v) => v,
            Err(e) => { return Err(e) },
        };
        let gamma_g2 = match Self::parse_g2_point(&self.vk_gamma_2) {
            Ok(v) => v,
            Err(e) => { return Err(e) },
        };
        let delta_g2 = match Self::parse_g2_point(&self.vk_delta_2) {
            Ok(v) => v,
            Err(e) => { return Err(e) },
        };
        let mut gamma_abc_g1: Vec<G1Point> = Vec::new();
        let mut i: usize = 0;
        while i < self.ic.len()
            invariant
                i <= self.ic@.len(),
                gamma_abc_g1@.len() == i,
                forall|j: int| 0 <= j < i ==> g1_coords_ok((#[trigger] self.ic@[j])@),
                forall|j: int|
                    0 <= j < i ==> (#[trigger] gamma_abc_g1@[j]).wf() && gamma_abc_g1@[j].x.value()
                        == dec_val(self.ic@[j]@[0]@) % base_modulus() && gamma_abc_g1@[j].y.value()
                        == dec_val(self.ic@[j]@[1]@) % base_modulus(),
            decreases self.ic@.len() - i,
        {
            let p = match Self::parse_g1_point(&self.ic[i]) {
                Ok(v) => v,
                Err(e) => { return Err(e) },
            };
            gamma_abc_g1.push(p);
            i = i + 1;
        }
        Ok(VerifyingKey { alpha_g1, beta_g2, gamma_g2, delta_g2, gamma_abc_g1 })
    }
}

} // verus!

//! Editing the recorded special input (light gun, tilt, camera) of one row.
use vstd::prelude::*;

use crate::editor::{TasEditorError, TasEditorWindowState, lemma_recording_stays_ok};
use crate::input::{TasCameraInput, TasDigest};
use crate::project::{AssetModel, assets_view};
use crate::special_input::{
    TasSpecialInputAction, TasSpecialInputError, apply_mutation, asset_bytes,
    camera_asset_is_authorable, find_asset, special_input_capabilities, spec_apply_mutation,
    spec_capabilities, spec_mutation_label, POCKET_CAMERA_FRAME_BYTES,
};
use crate::session::fill_range;
use crate::text::{decimal, push_decimal, push_str, str_eq, string_of};

verus! {

/// The message of a special-input edit of `label` at row `cursor`.
pub open spec fn special_input_message(label: Seq<char>, cursor: u64, changed: bool) -> Seq<char> {
    if changed {
        "Updated "@ + label + " at frame "@ + decimal(cursor as nat)
    } else {
        "No "@ + label + " change at frame "@ + decimal(cursor as nat)
    }
}

/// The answer a special-input edit owes: its refusals in the order they are
/// checked, then success with its message.
pub open spec fn special_input_answer(o: TasEditorWindowState, action: TasSpecialInputAction, r: Result<String, TasEditorError>) -> bool {
    match o.session {
        None => r == Err::<String, TasEditorError>(TasEditorError::NoProject),
        Some(session) => {
            let s = session@;
            let f = s.frames()[action.cursor as int];
            let c = spec_capabilities(s.current.project.identity);
            let g = spec_apply_mutation(f, action.mutation, c).unwrap();
            let assets = s.current.project.assets;
            if TasDigest(s.current.project.edit_generation) != action.expected_project_digest {
                r == Err::<String, TasEditorError>(TasEditorError::StaleProject)
            } else if s.branch().id != action.branch_id@ {
                r == Err::<String, TasEditorError>(TasEditorError::StaleBranch)
            } else if action.cursor >= s.frames().len() {
                r == Err::<String, TasEditorError>(TasEditorError::EndCursor)
            } else if spec_apply_mutation(f, action.mutation, c) is None {
                r == Err::<String, TasEditorError>(TasEditorError::SpecialInput(TasSpecialInputError::UndeclaredDevice))
            } else if g.camera matches TasCameraInput::Blob(d) && asset_bytes(assets, d) is None {
                r == Err::<String, TasEditorError>(TasEditorError::SpecialInput(TasSpecialInputError::MissingCameraAsset))
            } else if g.camera matches TasCameraInput::Blob(d) && asset_bytes(assets, d).unwrap().len() != POCKET_CAMERA_FRAME_BYTES
                && g.camera != f.camera {
                r == Err::<String, TasEditorError>(TasEditorError::SpecialInput(TasSpecialInputError::CameraAssetSize))
            } else if g != f && s.next_generation == u64::MAX {
                r == Err::<String, TasEditorError>(TasEditorError::Edit(crate::session::TasEditError::GenerationExhausted))
            } else {
                r is Ok && r->Ok_0@ == special_input_message(spec_mutation_label(action.mutation, c)@, action.cursor, g != f)
            }
        },
    }
}

/// The first asset named `digest` is the one whose bytes `asset_bytes` gives.
pub proof fn lemma_first_asset_bytes(assets: Seq<AssetModel>, digest: TasDigest, k: int)
    requires
        0 <= k < assets.len(),
        assets[k].digest == digest,
        forall|j: int| 0 <= j < k ==> (#[trigger] assets[j]).digest != digest,
    ensures
        asset_bytes(assets, digest) == Some(assets[k].bytes),
{
    let c = choose|c: int|
        0 <= c < assets.len() && (#[trigger] assets[c]).digest == digest
            && forall|j: int| 0 <= j < c ==> (#[trigger] assets[j]).digest != digest;
    if c < k {
        assert(assets[c].digest != digest);
    } else if c > k {
        assert(assets[k].digest != digest);
    }
}

/// What a special-input change at one frame did.
pub open spec fn special_input_outcome(o: TasEditorWindowState, n: TasEditorWindowState, action: TasSpecialInputAction, r: Result<String, TasEditorError>) -> bool {
    &&& special_input_answer(o, action, r)
    &&& (n.recording == o.recording)
    &&& (r is Err ==> (o.session is Some ==> n.session is Some
                    && n.session.unwrap()@ == o.session.unwrap()@))
    &&& (r is Ok ==> o.session is Some && n.session is Some && ({
                    let s = o.session.unwrap()@;
                    let f = s.frames()[action.cursor as int];
                    let c = spec_capabilities(s.current.project.identity);
                    &&& action.expected_project_digest == TasDigest(s.current.project.edit_generation)
                    &&& action.branch_id@ == s.branch().id
                    &&& action.cursor < s.frames().len()
                    &&& spec_apply_mutation(f, action.mutation, c) is Some
                    &&& n.session.unwrap()@.frames() == fill_range(s.frames(), action.cursor as int, 1,
                        spec_apply_mutation(f, action.mutation, c).unwrap())
                }))
}

impl TasEditorWindowState {
    /// Applies a special-input edit drafted against the current project state,
    /// the selected branch and an input row.
    pub fn apply_special_input_action(&mut self, action: TasSpecialInputAction) -> (r: Result<String, TasEditorError>)
        requires
            old(self).wf(),
        ensures
            final(self).wf(),
            special_input_outcome(*old(self), *final(self), action, r),
    {
        let session = match &self.session {
            Some(s) => s,
            None => return Err(TasEditorError::NoProject),
        };
        if session.project_content_digest() != action.expected_project_digest {
            return Err(TasEditorError::StaleProject);
        }
        if !str_eq(session.selected_branch_id(), action.branch_id.as_str()) {
            return Err(TasEditorError::StaleBranch);
        }
        if action.cursor >= session.frame_count() {
            return Err(TasEditorError::EndCursor);
        }
        let capabilities = special_input_capabilities(&session.project().identity);
        let mut replacement = session.selected_branch().input_at(action.cursor);
        let previous_camera = replacement.camera;
        let label = match apply_mutation(&mut replacement, action.mutation, capabilities) {
            Ok(l) => l,
            Err(e) => return Err(TasEditorError::SpecialInput(e)),
        };
        match replacement.camera {
            TasCameraInput::Blob(digest) => {
                let assets = &session.project().assets;
                proof {
                    assert(session@.current.project.assets == assets_view(assets@));
                }
                match find_asset(assets, digest) {
                    None => {
                        proof {
                            assert(forall|j: int| 0 <= j < assets@.len() ==> (#[trigger] assets_view(assets@)[j]).digest == assets@[j].digest);
                        }
                        return Err(TasEditorError::SpecialInput(TasSpecialInputError::MissingCameraAsset));
                    },
                    Some(k) => {
                        proof {
                            assert(forall|j: int| 0 <= j < assets@.len() ==> (#[trigger] assets_view(assets@)[j]).digest == assets@[j].digest);
                            lemma_first_asset_bytes(assets_view(assets@), digest, k as int);
                            assert(assets_view(assets@)[k as int].bytes == assets@[k as int].bytes@);
                        }
                        if !camera_asset_is_authorable(&assets[k].bytes) && replacement.camera != previous_camera {
                            return Err(TasEditorError::SpecialInput(TasSpecialInputError::CameraAssetSize));
                        }
                    },
                }
            },
            TasCameraInput::NoFrame => {},
        }
        let cursor = action.cursor;
        let mut session = match self.session.take() {
            Some(s) => s,
            None => return Err(TasEditorError::NoProject),
        };
        let ghost before = session@;
        proof {
            crate::project::lemma_branch_index_of_member(before.current.project.branches, before.current.selected);
        }
        let branch_id = string_of(session.selected_branch_id());
        match session.set_input_range(branch_id.as_str(), cursor, 1, replacement) {
            Ok(outcome) => {
                proof {
                    lemma_recording_stays_ok(self.recording, before, session@);
                    if replacement != before.frames()[cursor as int] {
                        assert(fill_range(before.frames(), cursor as int, 1, replacement)[cursor as int] != before.frames()[cursor as int]);
                    } else {
                        assert(fill_range(before.frames(), cursor as int, 1, replacement) =~= before.frames());
                    }
                    if !outcome.changed {
                        assert(session@.frames() =~= fill_range(before.frames(), cursor as int, 1, replacement));
                    }
                }
                self.session = Some(session);
                let mut message = string_of(if outcome.changed { "Updated " } else { "No " });
                push_str(&mut message, label);
                if outcome.changed {
                    self.execution_preview = None;
                    push_str(&mut message, " at frame ");
                } else {
                    push_str(&mut message, " change at frame ");
                }
                push_decimal(&mut message, cursor);
                Ok(message)
            },
            Err(e) => {
                proof {
                    if replacement == before.frames()[cursor as int] {
                        assert(fill_range(before.frames(), cursor as int, 1, replacement) =~= before.frames());
                    }
                }
                self.session = Some(session);
                Err(TasEditorError::Edit(e))
            },
        }
    }
}

} // verus!

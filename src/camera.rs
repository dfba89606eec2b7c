use vstd::prelude::*;
use crate::codec::same_text;

verus! {

/// The corner of the screen the camera preview sits in.
#[derive(Clone, Copy, Debug, PartialEq, Eq, Structural)]
pub enum PreviewAnchor {
    TopLeft,
    TopRight,
    BottomLeft,
    BottomRight,
}

/// How the camera preview is shown. Scale is in thousandths; margin and
/// offsets in thousandths of a pixel.
#[derive(Clone, Copy, Debug, PartialEq, Eq, Structural)]
pub struct CameraPreviewControl {
    pub enabled: bool,
    pub scale: u32,
    pub anchor: PreviewAnchor,
    pub margin: u32,
    pub offset_x: i32,
    pub offset_y: i32,
    pub mirror_x: bool,
}

/// Requests of the host page about the camera preview.
#[derive(Debug)]
pub enum CameraPreviewRequest {
    /// Show the preview at `scale` (thousandths) in the corner named `anchor`.
    Enable { scale: u32, anchor: String },
    Disable,
}

/// The corner a name stands for; an unknown name means the top right corner.
pub open spec fn anchor_of(name: Seq<char>) -> PreviewAnchor {
    if name == "TopLeft"@ {
        PreviewAnchor::TopLeft
    } else if name == "TopRight"@ {
        PreviewAnchor::TopRight
    } else if name == "BottomLeft"@ {
        PreviewAnchor::BottomLeft
    } else if name == "BottomRight"@ {
        PreviewAnchor::BottomRight
    } else {
        PreviewAnchor::TopRight
    }
}

/// See `anchor_of`.
pub fn anchor_from_name(name: &str) -> (r: PreviewAnchor)
    ensures
        r == anchor_of(name@),
{
    if same_text(name, "TopLeft") {
        PreviewAnchor::TopLeft
    } else if same_text(name, "TopRight") {
        PreviewAnchor::TopRight
    } else if same_text(name, "BottomLeft") {
        PreviewAnchor::BottomLeft
    } else if same_text(name, "BottomRight") {
        PreviewAnchor::BottomRight
    } else {
        PreviewAnchor::TopRight
    }
}

/// The control after request `r`: enabling sets scale and corner, disabling
/// only hides the preview.
pub open spec fn preview_after_request(c: CameraPreviewControl, r: CameraPreviewRequest) -> CameraPreviewControl {
    match r {
        CameraPreviewRequest::Enable { scale, anchor } =>
            CameraPreviewControl { enabled: true, scale, anchor: anchor_of(anchor@), ..c },
        CameraPreviewRequest::Disable => CameraPreviewControl { enabled: false, ..c },
    }
}

impl CameraPreviewControl {
    /// Shown, half size, top right corner, 12 px margin, no offset, not mirrored.
    pub fn new() -> (r: CameraPreviewControl)
        ensures
            r == (CameraPreviewControl {
                enabled: true,
                scale: 500,
                anchor: PreviewAnchor::TopRight,
                margin: 12_000,
                offset_x: 0,
                offset_y: 0,
                mirror_x: false,
            }),
    {
        CameraPreviewControl {
            enabled: true,
            scale: 500,
            anchor: PreviewAnchor::TopRight,
            margin: 12_000,
            offset_x: 0,
            offset_y: 0,
            mirror_x: false,
        }
    }

    /// Applies one request of the host page.
    pub fn apply(&mut self, request: CameraPreviewRequest)
        ensures
            *final(self) == preview_after_request(*old(self), request),
    {
        match request {
            CameraPreviewRequest::Enable { scale, anchor } => {
                self.enabled = true;
                self.scale = scale;
                self.anchor = anchor_from_name(anchor.as_str());
            },
            CameraPreviewRequest::Disable => {
                self.enabled = false;
            },
        }
    }
}

} // verus!

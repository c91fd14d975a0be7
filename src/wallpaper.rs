//! The four kinds of wallpaper, and how one is assembled from its project
//! descriptor and assets.

use vstd::prelude::*;

use crate::cursor::DecodeError;
use crate::scene::{PackageView, ScenePackage, spec_decode};

verus! {

/// Which backend renders a wallpaper.
#[derive(Debug, Clone, Copy, PartialEq, Eq, Structural)]
pub enum WallpaperKind {
    Video,
    Scene,
    Web,
    Preset,
}

/// What a wallpaper's project manifest says of it.
pub struct ProjectDescriptor {
    /// The numeric identifier of the wallpaper.
    pub id: u64,
    pub kind: WallpaperKind,
    /// The media file, relative to the wallpaper's directory.
    pub file: Option<String>,
}

/// A loaded wallpaper; its kind is fixed when it is built.
pub enum Wallpaper {
    Video { base_dir: String, project: ProjectDescriptor },
    Scene { project: ProjectDescriptor, scene_package: ScenePackage },
    Web { project: ProjectDescriptor },
    Preset { project: ProjectDescriptor },
}

/// Why a wallpaper could not be loaded.
#[derive(Debug, Clone, Copy, PartialEq, Eq, Structural)]
pub enum LoadError {
    /// The project manifest is absent or unreadable.
    MissingDescriptor,
    /// The scene package did not decode.
    AssetDecode(DecodeError),
    /// A video wallpaper names no media file, or the file is absent.
    MissingMediaFile,
}

/// What loading gives for a scene whose package bytes are `bytes`, or whose
/// package file is absent (`None`, read as no bytes at all).
pub open spec fn scene_outcome(bytes: Option<Seq<u8>>) -> Result<PackageView, LoadError> {
    let d = match bytes {
        Some(b) => b,
        None => seq![],
    };
    match spec_decode(d) {
        Ok(v) => Ok(v),
        Err(e) => Err(LoadError::AssetDecode(e)),
    }
}

impl Wallpaper {
    /// Which variant this wallpaper is.
    pub open spec fn kind(&self) -> WallpaperKind {
        match self {
            Wallpaper::Video { .. } => WallpaperKind::Video,
            Wallpaper::Scene { .. } => WallpaperKind::Scene,
            Wallpaper::Web { .. } => WallpaperKind::Web,
            Wallpaper::Preset { .. } => WallpaperKind::Preset,
        }
    }

    /// The descriptor this wallpaper was built from.
    pub open spec fn spec_project(&self) -> ProjectDescriptor {
        match self {
            Wallpaper::Video { project, .. } => *project,
            Wallpaper::Scene { project, .. } => *project,
            Wallpaper::Web { project } => *project,
            Wallpaper::Preset { project } => *project,
        }
    }

    /// Builds a wallpaper from its manifest (`None` where it could not be
    /// read), the directory it lives in, whether its media file is present,
    /// and the bytes of its scene package (`None` where the file is absent).
    /// The manifest's kind selects the variant.
    pub fn new(
        base_dir: String,
        descriptor: Option<ProjectDescriptor>,
        media_present: bool,
        scene_pkg: Option<Vec<u8>>,
    ) -> (r: Result<Wallpaper, LoadError>)
        ensures
            descriptor is None ==> r == Err::<Wallpaper, LoadError>(LoadError::MissingDescriptor),
            descriptor matches Some(d) ==> match d.kind {
                WallpaperKind::Video => if d.file is Some && media_present {
                    r matches Ok(Wallpaper::Video { base_dir: b, project }) && b@ == base_dir@ && project == d
                } else {
                    r == Err::<Wallpaper, LoadError>(LoadError::MissingMediaFile)
                },
                WallpaperKind::Scene => match scene_outcome(
                    match scene_pkg {
                        Some(b) => Some(b@),
                        None => None,
                    },
                ) {
                    Ok(v) => r matches Ok(Wallpaper::Scene { project, scene_package }) && project == d
                        && scene_package@ == v,
                    Err(e) => r == Err::<Wallpaper, LoadError>(e),
                },
                WallpaperKind::Web => r matches Ok(Wallpaper::Web { project }) && project == d,
                WallpaperKind::Preset => r matches Ok(Wallpaper::Preset { project }) && project == d,
            },
            r matches Ok(w) ==> descriptor matches Some(d) && w.kind() == d.kind && w.spec_project() == d,
    {
        let project = match descriptor {
            Some(d) => d,
            None => return Err(LoadError::MissingDescriptor),
        };
        match project.kind {
            WallpaperKind::Video => {
                if project.file.is_some() && media_present {
                    Ok(Wallpaper::Video { base_dir, project })
                } else {
                    Err(LoadError::MissingMediaFile)
                }
            },
            WallpaperKind::Scene => {
                let bytes = match scene_pkg {
                    Some(b) => b,
                    None => Vec::new(),
                };
                match ScenePackage::from_bytes(bytes) {
                    Ok(scene_package) => Ok(Wallpaper::Scene { project, scene_package }),
                    Err(e) => Err(LoadError::AssetDecode(e)),
                }
            },
            WallpaperKind::Web => Ok(Wallpaper::Web { project }),
            WallpaperKind::Preset => Ok(Wallpaper::Preset { project }),
        }
    }

    /// The kind of this wallpaper.
    pub fn get_wp_type(&self) -> (r: WallpaperKind)
        ensures
            r == self.kind(),
    {
        match self {
            Wallpaper::Video { .. } => WallpaperKind::Video,
            Wallpaper::Scene { .. } => WallpaperKind::Scene,
            Wallpaper::Web { .. } => WallpaperKind::Web,
            Wallpaper::Preset { .. } => WallpaperKind::Preset,
        }
    }

    /// The project descriptor of this wallpaper.
    pub fn project(&self) -> (r: &ProjectDescriptor)
        ensures
            *r == self.spec_project(),
    {
        match self {
            Wallpaper::Video { project, .. } => project,
            Wallpaper::Scene { project, .. } => project,
            Wallpaper::Web { project } => project,
            Wallpaper::Preset { project } => project,
        }
    }
}

} // verus!

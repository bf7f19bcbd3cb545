use vstd::prelude::*;

verus! {

/// Container-level failures.
#[derive(Clone, Copy, PartialEq, Eq, Structural, Debug)]
pub enum ContainerError {
    /// The output path was empty, so no container file could be opened.
    OpenFailed,
}

/// Failures of the media layer: encoder registration and container access.
#[derive(Clone, Copy, PartialEq, Eq, Structural, Debug)]
pub enum MediaError {
    /// A container-level failure.
    Container(ContainerError),
    /// The video encoder rejected its configuration.
    InvalidVideoConfig,
    /// The audio encoder rejected its configuration.
    InvalidAudioConfig,
}

/// Failures of sink initialization, identifying the stage that failed.
#[derive(Clone, Copy, PartialEq, Eq, Structural, Debug)]
pub enum InitError {
    /// Opening the container writer failed.
    Container(ContainerError),
    /// Registering the mandatory video encoder failed.
    VideoInit(MediaError),
    /// Registering the requested audio encoder failed.
    AudioInit(MediaError),
}

impl From<InitError> for MediaError {
    fn from(value: InitError) -> (r: Self) {
        match value {
            InitError::AudioInit(e) => e,
            InitError::VideoInit(e) => e,
            InitError::Container(e) => MediaError::Container(e),
        }
    }
}

impl vstd::std_specs::convert::FromSpecImpl<InitError> for MediaError {
    open spec fn obeys_from_spec() -> bool {
        true
    }

    open spec fn from_spec(value: InitError) -> MediaError {
        match value {
            InitError::AudioInit(e) => e,
            InitError::VideoInit(e) => e,
            InitError::Container(e) => MediaError::Container(e),
        }
    }
}

} // verus!

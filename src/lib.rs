pub mod animation_to_sync;
pub mod clock;
pub mod collections;
pub mod context_ressources;
pub mod context_sync;
pub mod context_version;
pub mod db_data_types;
pub mod delta_resolver;
pub mod display_context_types;
pub mod encode_decodes_resources;
pub mod error_types;
pub mod faces_network_errors;
pub mod fcm_token_types;
pub mod friendships_types;
pub mod identifier;
pub mod invitation;
pub mod notifications_types;
pub mod refresh_cred;
pub mod ressources_descriptors;
pub mod shared_bytes;
pub mod signin;
pub mod signup;
pub mod stream_types;
pub mod text;

pub use animation_to_sync::{
    AnimVariableContext, AnimationRefToFetch, FetchAnimationToSyncWithItsContexts,
    FetchAnimationToSyncWithoutContext, SyncNewAnim, SyncNewAnimResponse, QUANTIZATION_RESOLUTION,
};
pub use context_version::ServerContextVersion;
pub use db_data_types::{ToUserContextKind, UserContextKind, UserDisplayContext, UserPeersInfos};
pub use error_types::UserLoginResponseErrorKind;
pub use identifier::Identifier;
pub use signin::SigninData;
pub use signup::SignupData;

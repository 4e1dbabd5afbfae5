//! What holds of the functions of the library, said of their arguments and
//! results. `call_ensures(f, args, r)` reads: a call of `f` on `args` may give
//! `r`.

pub mod api;
pub mod device_auth;
pub mod media;
pub mod numbers;
pub mod patterns;
pub mod playback;
pub mod rules;
pub mod scrobble;
pub mod settings;
pub mod text;

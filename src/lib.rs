//! A personal dictionary lookup core: a cache of explanations keyed by the
//! queried word, a network-first lookup that falls back to the cache, a
//! detector that reports new clipboard or selection content in daemon mode,
//! and the colored renderings of the remote service's entries.
pub mod daemon;
pub mod detector;
pub mod explain;
pub mod language;
pub mod lookup;
pub mod store;
pub mod trans_type;

pub use daemon::{Daemon, Phase};
pub use detector::ChangeDetector;
pub use explain::{Basic, Kv, Phonetic, YdcvResp};
pub use language::{is_pronounceable, wants_pronunciation, Language};
pub use lookup::{resolve, LookupError, Origin, Resolved};
pub use store::{
    get_saved_answer, insert_value, step_forward_with_local_only, step_forward_with_web_result,
    Answer, AnswerStore,
};
pub use trans_type::{Translation, YDCVFormatter};

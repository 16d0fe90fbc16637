//! Layered resource resolution for a document-processing engine: resources
//! may live on the local filesystem, inside a compressed archive bundle, or
//! be synthesized from buffered process streams.

mod finder;
mod format;
mod resolver;
mod stdstreams;

pub use finder::BundleError;
pub use finder::FinderState;
pub use finder::augment_name;
pub use finder::locate_post;
pub use finder::spec_augmented;
pub use finder::zip_entries;
pub use finder::zip_index;
pub use format::FileFormat;
pub use format::c_format_to_rust;
pub use format::format_to_extension;
pub use format::spec_classify;
pub use format::spec_extension;
pub use resolver::ChainModel;
pub use resolver::ResolveChain;
pub use resolver::Resolver;
pub use resolver::Stage;
pub use resolver::chain_after_disk;
pub use resolver::chain_start;
pub use resolver::lemma_absence_is_soft;
pub use resolver::lemma_archive_fallback_exact;
pub use resolver::lemma_disk_presence_short_circuits;
pub use resolver::probe_target;
pub use stdstreams::BufferedPrimaryIo;
pub use stdstreams::CursorModel;
pub use stdstreams::GenuineStdoutIo;
pub use stdstreams::InputCursor;
pub use stdstreams::SeekAt;
pub use stdstreams::SharedByteBuffer;
pub use stdstreams::StreamError;
pub use stdstreams::StreamOpen;
pub use stdstreams::cursor_after_seek;
pub use stdstreams::fresh_cursor;
pub use stdstreams::lemma_repeatable_primary;
pub use stdstreams::remaining_of;
pub use stdstreams::seek_target;

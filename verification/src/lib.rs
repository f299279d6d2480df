//! An actor runtime in miniature: typed message boxes over bounded channels,
//! keyed routing, request/response multiplexing and a supervising runtime,
//! together with the pure decision logic of the tools built on top of them.
//!
//! Everything asynchronous about such a system (suspending on a full
//! channel, awaiting the next message, joining spawned tasks) is delegated to
//! an unverified adapter; this crate holds the state, the transitions and the
//! contracts, so that every decision the system takes is a verified function
//! from plain values to plain values.

mod actors;
mod bridge;
mod c8y_proxy;
mod channels;
mod command;
mod config_option;
mod download;
mod errors;
mod file_system_ext;
mod handles;
mod http_ext;
mod journal;
mod keyed_messages;
mod message_boxes;
mod mqtt;
mod pkcs11;
mod runtime;
mod script;
mod signing;
mod text;
mod upload;
mod watchdog;

pub use actors::actor_run;
pub use actors::run_actor;
pub use actors::Actor;
pub use actors::ActorOutcome;
pub use bridge::classify_remove_outcome;
pub use bridge::is_fatal_disconnect_error;
pub use bridge::should_restart_broker;
pub use bridge::DisconnectBridgeError;
pub use c8y_proxy::C8YConnectionBuilder;
pub use c8y_proxy::C8YHttpProxy;
pub use c8y_proxy::C8YRestError;
pub use c8y_proxy::C8YRestRequest;
pub use c8y_proxy::C8YRestResponse;
pub use c8y_proxy::C8YRestResult;
pub use channels::deliver;
pub use channels::lemma_closure_is_terminal;
pub use channels::mailbox_step;
pub use channels::new_mailbox;
pub use channels::Address;
pub use channels::Mailbox;
pub use channels::MailboxModel;
pub use channels::MailboxStep;
pub use channels::NullSender;
pub use channels::RecvOutcome;
pub use channels::Sender;
pub use command::Command;
pub use command::CommandError;
pub use config_option::ConfigNotSet;
pub use config_option::OptionalConfig;
pub use config_option::OptionalConfigGroup;
pub use download::classify_download_error;
pub use download::has_space_for;
pub use download::resume_supported;
pub use download::spec_usable_space;
pub use download::temp_download_path;
pub use download::DownloadInfo;
pub use download::InvalidFilePath;
pub use download::Retry;
pub use errors::ChannelError;
pub use errors::LinkError;
pub use errors::RuntimeError;
pub use file_system_ext::FileEvent;
pub use file_system_ext::FileRequest;
pub use file_system_ext::WatcherConfig;
pub use handles::echo_round_trip;
pub use handles::RequestResponseHandler;
pub use handles::HANDLER_CAPACITY;
pub use http_ext::HttpActorInstance;
pub use http_ext::HttpConfig;
pub use http_ext::HttpRequest;
pub use http_ext::HttpResponse;
pub use http_ext::KeyedRecipient;
pub use http_ext::PrivateHttpActor;
pub use http_ext::HTTP_MAILBOX_CAPACITY;
pub use journal::spec_journal_get;
pub use journal::Event;
pub use journal::Journal;
pub use journal::JournalError;
pub use journal::OperationEvent;
pub use journal::OperationProcess;
pub use journal::OperationRequest;
pub use journal::OperationStatus;
pub use journal::RequestId;
pub use journal::Timestamp;
pub use keyed_messages::KeyedSender;
pub use keyed_messages::SenderVec;
pub use message_boxes::exchange_mirrored;
pub use message_boxes::lemma_per_client_correlation;
pub use message_boxes::relay_mirrored;
pub use message_boxes::responses_for;
pub use message_boxes::transfer;
pub use message_boxes::ClientId;
pub use message_boxes::ConcurrentServiceMessageBox;
pub use message_boxes::MessageBox;
pub use message_boxes::NextRequest;
pub use message_boxes::PendingResponse;
pub use message_boxes::ServiceMessageBox;
pub use message_boxes::SimpleMessageBox;
pub use message_boxes::TaskOutcome;
pub use message_boxes::CHANNEL_CAPACITY;
pub use mqtt::effective_clean_session;
pub use mqtt::port_warning;
pub use mqtt::publish_outcome;
pub use mqtt::publish_step;
pub use mqtt::spec_filter_accepts;
pub use mqtt::topic_filter_accepts;
pub use mqtt::InitMessageFn;
pub use mqtt::LoopStep;
pub use mqtt::MqttActorMessage;
pub use mqtt::MqttMessage;
pub use mqtt::MqttPublishError;
pub use mqtt::PortWarning;
pub use mqtt::PublishEvent;
pub use mqtt::PublishProgress;
pub use mqtt::QoS;
pub use mqtt::INSECURE_MQTT_PORT;
pub use mqtt::MAX_PACKET_SIZE;
pub use mqtt::SECURE_MQTT_PORT;
pub use pkcs11::percent_decode;
pub use pkcs11::spec_percent_decode;
pub use pkcs11::Pkcs11Uri;
pub use pkcs11::Pkcs11UriError;
pub use runtime::Runtime;
pub use runtime::RuntimeAction;
pub use runtime::RuntimeActor;
pub use runtime::RuntimeEvent;
pub use runtime::RuntimeHandle;
pub use runtime::RuntimeRequest;
pub use runtime::RuntimeState;
pub use runtime::RuntimeStep;
pub use runtime::TaskRef;
pub use runtime::TaskTermination;
pub use runtime::RUNTIME_ACTION_CAPACITY;
pub use script::Execute;
pub use script::ScriptActor;
pub use signing::format_asn1_ecdsa_signature;
pub use signing::select_sigscheme;
pub use signing::sigscheme_for_ec_params;
pub use signing::sigscheme_for_oid;
pub use signing::spec_ecdsa_signature;
pub use signing::split_raw_signature;
pub use signing::token_matches;
pub use signing::HashAlg;
pub use signing::KeyKind;
pub use signing::SigScheme;
pub use signing::SignatureKind;
pub use text::bytes_to_string_lossy;
pub use text::str_eq;
pub use text::trim_of;
pub use text::utf8_lossy_of;
pub use upload::classify_upload_send_error;
pub use upload::classify_upload_status;
pub use upload::Auth;
pub use upload::ContentType;
pub use upload::UploadInfo;
pub use watchdog::start_watchdog;
pub use watchdog::WatchdogError;

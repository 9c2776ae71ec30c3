pub mod configuration;
pub mod email_client;
pub mod new_subscriber;
pub mod newsletter;
pub mod subscriber_email;
pub mod subscriber_name;
pub mod subscriber_record;
pub mod subscriptions;
pub mod subscriptions_confirm;
pub mod token;
pub mod validation;

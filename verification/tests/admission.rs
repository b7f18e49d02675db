use voice_queue::admission::{AdmissionContext, AdmissionError, ChannelId};

#[test]
fn requester_without_channel_is_refused() {
    let ctx = AdmissionContext::new(None, Some(ChannelId(7)));
    assert_eq!(ctx.check(), Err(AdmissionError::NotInVoiceChannel));
    let ctx = AdmissionContext::new(None, None);
    assert_eq!(ctx.check(), Err(AdmissionError::NotInVoiceChannel));
}

#[test]
fn requester_in_bots_channel_is_allowed() {
    let ctx = AdmissionContext::new(Some(ChannelId(7)), Some(ChannelId(7)));
    assert_eq!(ctx.check(), Ok(()));
}

#[test]
fn requester_elsewhere_is_refused() {
    let ctx = AdmissionContext::new(Some(ChannelId(8)), Some(ChannelId(7)));
    assert_eq!(ctx.check(), Err(AdmissionError::DifferentChannel));
}

#[test]
fn any_requester_is_allowed_before_first_join() {
    let ctx = AdmissionContext::new(Some(ChannelId(8)), None);
    assert_eq!(ctx.check(), Ok(()));
    let ctx = AdmissionContext::new(Some(ChannelId(u64::MAX)), None);
    assert_eq!(ctx.check(), Ok(()));
}

#[test]
fn context_keeps_what_it_was_given() {
    let ctx = AdmissionContext::new(Some(ChannelId(1)), Some(ChannelId(2)));
    assert_eq!(ctx.requester_channel, Some(ChannelId(1)));
    assert_eq!(ctx.bot_channel, Some(ChannelId(2)));
}

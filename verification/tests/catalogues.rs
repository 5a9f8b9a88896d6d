use sundaystudio::dsp::biquad::FilterType;
use sundaystudio::dsp::chain::{preset_infos, Preset};
use sundaystudio::dsp::eq::EqBandType;
use sundaystudio::dsp::master::{master_preset_infos, MasterPreset};
use sundaystudio::export::encode::{
    build_ffmpeg_args, ffmpeg_codec, is_lossless, plan_encode, stderr_tail, EncodeError,
    EncodePlanError, STDERR_TAIL_CHARS,
};
use sundaystudio::export::fade::FadeShape;
use sundaystudio::export::format::{export_presets, preset_by_id, ExportFormat};
use sundaystudio::project::templates::{all, channel_count, color_for, template_tracks};

// ── voice and master presets ────────────────────────────────────────────────

#[test]
fn presets_have_stable_ids() {
    assert_eq!(preset_infos().len(), 4);
    assert!(Preset::from_id("broadcast").is_some());
    assert!(Preset::from_id("nope").is_none());
}

#[test]
fn every_preset_id_round_trips() {
    for p in Preset::ALL {
        assert_eq!(Preset::from_id(p.id()), Some(p));
    }
    let infos = preset_infos();
    for (info, p) in infos.iter().zip(Preset::ALL.iter()) {
        assert_eq!(info.id, p.id());
        assert_eq!(info.label, p.label());
        assert_eq!(info.description, p.description());
    }
}

#[test]
fn master_presets_round_trip_and_name_a_target() {
    let infos = master_preset_infos();
    assert_eq!(infos.len(), 4);
    for (info, p) in infos.iter().zip(MasterPreset::ALL.iter()) {
        assert_eq!(MasterPreset::from_id(&info.id), Some(*p));
        assert_eq!(info.target_id, p.target_id());
        assert!(!info.label.is_empty());
    }
    assert!(MasterPreset::from_id("nope").is_none());
}

#[test]
fn eq_band_types_map_onto_filters() {
    assert_eq!(EqBandType::HighPass.to_filter(), FilterType::HighPass);
    assert_eq!(EqBandType::LowShelf.to_filter(), FilterType::LowShelf);
    assert_eq!(EqBandType::Bell.to_filter(), FilterType::Peaking);
    assert_eq!(EqBandType::HighShelf.to_filter(), FilterType::HighShelf);
    assert_eq!(EqBandType::LowPass.to_filter(), FilterType::LowPass);
}

#[test]
fn default_fade_shape_is_linear() {
    assert_eq!(FadeShape::default(), FadeShape::Linear);
}

// ── export formats and the encode plan ──────────────────────────────────────

#[test]
fn lossless_classification_matches_frontend() {
    assert!(is_lossless(ExportFormat::Wav));
    assert!(is_lossless(ExportFormat::Flac));
    assert!(!is_lossless(ExportFormat::Mp3));
    assert!(!is_lossless(ExportFormat::Aac));
}

#[test]
fn codecs_match_frontend() {
    assert_eq!(ffmpeg_codec(ExportFormat::Wav), "pcm_s24le");
    assert_eq!(ffmpeg_codec(ExportFormat::Mp3), "libmp3lame");
    assert_eq!(ffmpeg_codec(ExportFormat::Aac), "aac");
    assert_eq!(ffmpeg_codec(ExportFormat::Flac), "flac");
}

#[test]
fn plans_a_valid_mp3() {
    let plan = plan_encode(ExportFormat::Mp3, Some(192), 2, 48_000).unwrap();
    assert_eq!(plan.bitrate_kbps, Some(192));
    assert_eq!(plan.codec, "libmp3lame");
    assert_eq!(plan.extension, "mp3");
    assert!(plan.requires_encoder);
}

#[test]
fn plans_a_valid_flac_without_bitrate() {
    let plan = plan_encode(ExportFormat::Flac, None, 2, 44_100).unwrap();
    assert_eq!(plan.bitrate_kbps, None);
    assert!(plan.requires_encoder);
    assert_eq!(plan.extension, "flac");
}

#[test]
fn wav_plan_needs_no_encoder() {
    let plan = plan_encode(ExportFormat::Wav, None, 2, 48_000).unwrap();
    assert!(!plan.requires_encoder);
    assert!(build_ffmpeg_args(&plan, "in.wav", "out.wav").is_none());
}

#[test]
fn rejects_bad_channels() {
    assert_eq!(
        plan_encode(ExportFormat::Mp3, Some(128), 3, 48_000),
        Err(EncodePlanError::BadChannels(3))
    );
}

#[test]
fn rejects_bad_sample_rate() {
    assert_eq!(
        plan_encode(ExportFormat::Mp3, Some(128), 2, 96_000),
        Err(EncodePlanError::BadSampleRate(96_000))
    );
}

#[test]
fn rejects_bitrate_on_lossless() {
    assert_eq!(
        plan_encode(ExportFormat::Flac, Some(192), 2, 48_000),
        Err(EncodePlanError::BitrateOnLossless(192))
    );
    assert_eq!(
        plan_encode(ExportFormat::Wav, Some(192), 2, 48_000),
        Err(EncodePlanError::BitrateOnLossless(192))
    );
}

#[test]
fn rejects_missing_and_out_of_range_bitrate() {
    assert_eq!(
        plan_encode(ExportFormat::Mp3, None, 2, 48_000),
        Err(EncodePlanError::MissingBitrate)
    );
    assert_eq!(
        plan_encode(ExportFormat::Mp3, Some(32), 2, 48_000),
        Err(EncodePlanError::BitrateOutOfRange(32))
    );
    assert_eq!(
        plan_encode(ExportFormat::Aac, Some(512), 2, 48_000),
        Err(EncodePlanError::BitrateOutOfRange(512))
    );
    // Boundaries are inclusive.
    assert!(plan_encode(ExportFormat::Mp3, Some(64), 1, 48_000).is_ok());
    assert!(plan_encode(ExportFormat::Mp3, Some(320), 2, 48_000).is_ok());
}

#[test]
fn channel_problem_is_reported_before_the_rate() {
    assert_eq!(
        plan_encode(ExportFormat::Mp3, None, 0, 22_050),
        Err(EncodePlanError::BadChannels(0))
    );
}

#[test]
fn plan_errors_read_as_sentences() {
    assert_eq!(
        EncodePlanError::BadChannels(3).message(),
        "channels must be 1 (mono) or 2 (stereo), got 3"
    );
    assert_eq!(
        EncodePlanError::BadSampleRate(96_000).message(),
        "sample rate must be 44100 or 48000 Hz, got 96000"
    );
    assert_eq!(
        EncodePlanError::BitrateOnLossless(192).message(),
        "lossless format takes no bitrate (got 192 kbps)"
    );
    assert_eq!(EncodePlanError::MissingBitrate.message(), "lossy format needs a bitrate");
    assert_eq!(
        EncodePlanError::BitrateOutOfRange(32).message(),
        "bitrate must be 64–320 kbps, got 32"
    );
}

#[test]
fn builds_lossy_args_in_expected_order() {
    let plan = plan_encode(ExportFormat::Mp3, Some(192), 2, 48_000).unwrap();
    let args = build_ffmpeg_args(&plan, "/tmp/master.wav", "/tmp/out.mp3").unwrap();
    assert_eq!(
        args,
        vec![
            "-y",
            "-i",
            "/tmp/master.wav",
            "-c:a",
            "libmp3lame",
            "-b:a",
            "192k",
            "-ar",
            "48000",
            "-ac",
            "2",
            "/tmp/out.mp3",
        ]
    );
}

#[test]
fn builds_flac_args_with_compression_and_no_bitrate() {
    let plan = plan_encode(ExportFormat::Flac, None, 1, 44_100).unwrap();
    let args = build_ffmpeg_args(&plan, "/tmp/master.wav", "/tmp/out.flac").unwrap();
    assert_eq!(
        args,
        vec![
            "-y",
            "-i",
            "/tmp/master.wav",
            "-c:a",
            "flac",
            "-compression_level",
            "8",
            "-ar",
            "44100",
            "-ac",
            "1",
            "/tmp/out.flac",
        ]
    );
    // No bitrate flag on a lossless encode.
    assert!(!args.contains(&"-b:a".to_string()));
}

#[test]
fn builds_aac_args() {
    let plan = plan_encode(ExportFormat::Aac, Some(160), 2, 48_000).unwrap();
    let args = build_ffmpeg_args(&plan, "in.wav", "out.m4a").unwrap();
    assert!(args.contains(&"aac".to_string()));
    assert!(args.contains(&"160k".to_string()));
    assert_eq!(args.last().unwrap(), "out.m4a");
}

#[test]
fn stderr_tail_keeps_the_last_characters() {
    assert_eq!(stderr_tail("short"), "short");
    let long = "x".repeat(STDERR_TAIL_CHARS) + "END";
    let tail = stderr_tail(&long);
    assert_eq!(tail.chars().count(), STDERR_TAIL_CHARS);
    assert!(tail.ends_with("END"));
}

#[test]
fn encode_errors_read_as_sentences() {
    let failed = EncodeError::FfmpegFailed {
        status: Some(1),
        stderr: "boom".to_string(),
    };
    assert_eq!(failed.message(), "ffmpeg exited Some(1): boom");
    let killed = EncodeError::FfmpegFailed {
        status: None,
        stderr: "x".to_string(),
    };
    assert_eq!(killed.message(), "ffmpeg exited None: x");
    let negative = EncodeError::FfmpegFailed {
        status: Some(-9),
        stderr: String::new(),
    };
    assert_eq!(negative.message(), "ffmpeg exited Some(-9): ");
    assert_eq!(
        EncodeError::FfmpegUnavailable("not found".to_string()).message(),
        "ffmpeg unavailable: not found"
    );
}

#[test]
fn only_wav_is_native() {
    assert!(!ExportFormat::Wav.requires_encoder());
    assert!(ExportFormat::Mp3.requires_encoder());
    assert_eq!(ExportFormat::Aac.extension(), "m4a");
    assert!(!preset_by_id("wav-archival").unwrap().requires_encoder);
}

#[test]
fn export_presets_are_complete_and_plannable() {
    let presets = export_presets();
    assert_eq!(presets.len(), 5);
    assert!(preset_by_id("spotify").is_some());
    assert!(preset_by_id("nope").is_none());
    for p in presets {
        assert!(p.channels == 1 || p.channels == 2);
        match p.format {
            ExportFormat::Wav | ExportFormat::Flac => assert!(p.bitrate_kbps.is_none()),
            _ => assert!(p.bitrate_kbps.is_some(), "{} missing bitrate", p.id),
        }
        assert_eq!(preset_by_id(&p.id), Some(p.clone()));
        assert!(plan_encode(p.format, p.bitrate_kbps, p.channels, 48_000).is_ok());
    }
}

// ── project templates ───────────────────────────────────────────────────────

#[test]
fn ships_eight_templates_with_a_blank() {
    let all = all();
    assert_eq!(all.len(), 8);
    assert!(all.iter().any(|t| t.id == "blank" && t.tracks.is_empty()));
}

#[test]
fn mic_count_counts_only_input_tracks() {
    let two = all().into_iter().find(|t| t.id == "two-person").unwrap();
    assert_eq!(two.mic_count, 2); // host + guest, not the music bed
    assert_eq!(two.tracks.len(), 3);
    assert_eq!(two.channel_count, 2);
}

#[test]
fn mic_inputs_are_contiguous_1_to_n_within_channel_count() {
    for t in all() {
        let mut inputs: Vec<i32> = t
            .tracks
            .iter()
            .filter_map(|tr| tr.input_assignment)
            .collect();
        inputs.sort_unstable();
        let expected: Vec<i32> = (1..=t.mic_count).collect();
        assert_eq!(
            inputs, expected,
            "template {} mic inputs must be a contiguous 1..={} (got {inputs:?})",
            t.id, t.mic_count
        );
        if let Some(&max) = inputs.last() {
            assert!(
                max <= t.channel_count,
                "template {} routes input {max} beyond its channel_count {}",
                t.id,
                t.channel_count
            );
        }
    }
}

#[test]
fn template_ids_are_unique() {
    let mut ids: Vec<String> = all().into_iter().map(|t| t.id).collect();
    let count = ids.len();
    ids.sort_unstable();
    ids.dedup();
    assert_eq!(ids.len(), count, "duplicate template id");
}

#[test]
fn channel_count_lookup_matches_gallery() {
    for t in all() {
        assert_eq!(channel_count(&t.id), Some(t.channel_count));
    }
    assert_eq!(channel_count("nope"), None);
}

#[test]
fn template_tracks_follow_the_gallery_and_refuse_unknown_ids() {
    let tracks = template_tracks("two-person").unwrap();
    assert_eq!(tracks.len(), 3);
    assert_eq!(tracks[0].name, "Host");
    assert_eq!(tracks[0].input_assignment, Some(1));
    assert_eq!(tracks[1].input_assignment, Some(2));
    assert_eq!(tracks[2].name, "Music bed");
    assert_eq!(tracks[2].input_assignment, None);
    let err = template_tracks("nope").unwrap_err();
    assert_eq!(err.code(), "validation");
}

#[test]
fn track_colours_cycle_through_the_palette() {
    assert_eq!(color_for(0), color_for(8));
    assert_ne!(color_for(0), color_for(1));
    assert!(color_for(3).starts_with('#'));
}

#[test]
fn every_preset_names_a_known_loudness_target() {
    let ids = sundaystudio::dsp::loudness::target_ids();
    assert_eq!(ids, vec!["spotify", "apple-podcasts", "youtube", "broadcast-eu"]);
    for p in sundaystudio::export::format::export_presets() {
        assert!(ids.contains(&p.target_id.as_str()), "{}", p.id);
    }
    for m in sundaystudio::dsp::master::master_preset_infos() {
        assert!(ids.contains(&m.target_id.as_str()), "{}", m.id);
    }
}

//! IPTC metadata of an image: one optional text value per IPTC record field.

use vstd::prelude::*;

use crate::case::{is_pascal, is_pascal_case, snake_case_of, to_snake_case};
use crate::text::{clone_opt, opt_view, str_eq};

verus! {

/// The IPTC fields of the image at `image_path`.
#[derive(Clone, Debug)]
pub struct ImageIptc {
    pub image_path: String,
    pub model_version: Option<String>,
    pub date_sent: Option<String>,
    pub time_sent: Option<String>,
    pub coded_character_set: Option<String>,
    pub record_version: Option<String>,
    pub object_type_reference: Option<String>,
    pub object_attribute_reference: Option<String>,
    pub object_name: Option<String>,
    pub edit_status: Option<String>,
    pub editorial_update: Option<String>,
    pub urgency: Option<String>,
    pub subject_reference: Option<String>,
    pub category: Option<String>,
    pub supplemental_categories: Option<String>,
    pub fixture_id: Option<String>,
    pub keywords: Option<String>,
    pub content_location_code: Option<String>,
    pub content_location_name: Option<String>,
    pub release_date: Option<String>,
    pub release_time: Option<String>,
    pub expiration_date: Option<String>,
    pub expiration_time: Option<String>,
    pub special_instructions: Option<String>,
    pub action_advised: Option<String>,
    pub reference_service: Option<String>,
    pub reference_date: Option<String>,
    pub reference_number: Option<String>,
    pub date_created: Option<String>,
    pub time_created: Option<String>,
    pub digital_date_created: Option<String>,
    pub digital_time_created: Option<String>,
    pub originating_program: Option<String>,
    pub program_version: Option<String>,
    pub object_cycle: Option<String>,
    pub by_line: Option<String>,
    pub by_line_title: Option<String>,
    pub city: Option<String>,
    pub sub_location: Option<String>,
    pub province_or_state: Option<String>,
    pub country_or_primary_location_code: Option<String>,
    pub country_or_primary_location_name: Option<String>,
    pub original_transmission_reference: Option<String>,
    pub headline: Option<String>,
    pub credit: Option<String>,
    pub source: Option<String>,
    pub copyright_notice: Option<String>,
    pub contact: Option<String>,
    pub caption: Option<String>,
    pub local_caption: Option<String>,
    pub caption_writer: Option<String>,
    pub rasterized_caption: Option<String>,
    pub image_type: Option<String>,
    pub image_orientation: Option<String>,
    pub language_identifier: Option<String>,
    pub audio_type: Option<String>,
    pub audio_sampling_rate: Option<String>,
    pub audio_sampling_resolution: Option<String>,
    pub audio_duration: Option<String>,
    pub audio_outcue: Option<String>,
    pub job_id: Option<String>,
    pub master_document_id: Option<String>,
    pub short_document_id: Option<String>,
    pub unique_document_id: Option<String>,
    pub owner_id: Option<String>,
}

/// Whether `k` names a field of [`ImageIptc`] (in snake_case).
pub open spec fn is_iptc_field(k: Seq<char>) -> bool {
    ||| k == "image_path"@
    ||| k == "model_version"@
    ||| k == "date_sent"@
    ||| k == "time_sent"@
    ||| k == "coded_character_set"@
    ||| k == "record_version"@
    ||| k == "object_type_reference"@
    ||| k == "object_attribute_reference"@
    ||| k == "object_name"@
    ||| k == "edit_status"@
    ||| k == "editorial_update"@
    ||| k == "urgency"@
    ||| k == "subject_reference"@
    ||| k == "category"@
    ||| k == "supplemental_categories"@
    ||| k == "fixture_id"@
    ||| k == "keywords"@
    ||| k == "content_location_code"@
    ||| k == "content_location_name"@
    ||| k == "release_date"@
    ||| k == "release_time"@
    ||| k == "expiration_date"@
    ||| k == "expiration_time"@
    ||| k == "special_instructions"@
    ||| k == "action_advised"@
    ||| k == "reference_service"@
    ||| k == "reference_date"@
    ||| k == "reference_number"@
    ||| k == "date_created"@
    ||| k == "time_created"@
    ||| k == "digital_date_created"@
    ||| k == "digital_time_created"@
    ||| k == "originating_program"@
    ||| k == "program_version"@
    ||| k == "object_cycle"@
    ||| k == "by_line"@
    ||| k == "by_line_title"@
    ||| k == "city"@
    ||| k == "sub_location"@
    ||| k == "province_or_state"@
    ||| k == "country_or_primary_location_code"@
    ||| k == "country_or_primary_location_name"@
    ||| k == "original_transmission_reference"@
    ||| k == "headline"@
    ||| k == "credit"@
    ||| k == "source"@
    ||| k == "copyright_notice"@
    ||| k == "contact"@
    ||| k == "caption"@
    ||| k == "local_caption"@
    ||| k == "caption_writer"@
    ||| k == "rasterized_caption"@
    ||| k == "image_type"@
    ||| k == "image_orientation"@
    ||| k == "language_identifier"@
    ||| k == "audio_type"@
    ||| k == "audio_sampling_rate"@
    ||| k == "audio_sampling_resolution"@
    ||| k == "audio_duration"@
    ||| k == "audio_outcue"@
    ||| k == "job_id"@
    ||| k == "master_document_id"@
    ||| k == "short_document_id"@
    ||| k == "unique_document_id"@
    ||| k == "owner_id"@
}

/// The value of the field named `k` (`image_path` always has one).
pub open spec fn iptc_value(r: ImageIptc, k: Seq<char>) -> Option<Seq<char>> {
    if k == "image_path"@ {
        Some(r.image_path@)
    } else if k == "model_version"@ {
        opt_view(r.model_version)
    } else if k == "date_sent"@ {
        opt_view(r.date_sent)
    } else if k == "time_sent"@ {
        opt_view(r.time_sent)
    } else if k == "coded_character_set"@ {
        opt_view(r.coded_character_set)
    } else if k == "record_version"@ {
        opt_view(r.record_version)
    } else if k == "object_type_reference"@ {
        opt_view(r.object_type_reference)
    } else if k == "object_attribute_reference"@ {
        opt_view(r.object_attribute_reference)
    } else if k == "object_name"@ {
        opt_view(r.object_name)
    } else if k == "edit_status"@ {
        opt_view(r.edit_status)
    } else if k == "editorial_update"@ {
        opt_view(r.editorial_update)
    } else if k == "urgency"@ {
        opt_view(r.urgency)
    } else if k == "subject_reference"@ {
        opt_view(r.subject_reference)
    } else if k == "category"@ {
        opt_view(r.category)
    } else if k == "supplemental_categories"@ {
        opt_view(r.supplemental_categories)
    } else if k == "fixture_id"@ {
        opt_view(r.fixture_id)
    } else if k == "keywords"@ {
        opt_view(r.keywords)
    } else if k == "content_location_code"@ {
        opt_view(r.content_location_code)
    } else if k == "content_location_name"@ {
        opt_view(r.content_location_name)
    } else if k == "release_date"@ {
        opt_view(r.release_date)
    } else if k == "release_time"@ {
        opt_view(r.release_time)
    } else if k == "expiration_date"@ {
        opt_view(r.expiration_date)
    } else if k == "expiration_time"@ {
        opt_view(r.expiration_time)
    } else if k == "special_instructions"@ {
        opt_view(r.special_instructions)
    } else if k == "action_advised"@ {
        opt_view(r.action_advised)
    } else if k == "reference_service"@ {
        opt_view(r.reference_service)
    } else if k == "reference_date"@ {
        opt_view(r.reference_date)
    } else if k == "reference_number"@ {
        opt_view(r.reference_number)
    } else if k == "date_created"@ {
        opt_view(r.date_created)
    } else if k == "time_created"@ {
        opt_view(r.time_created)
    } else if k == "digital_date_created"@ {
        opt_view(r.digital_date_created)
    } else if k == "digital_time_created"@ {
        opt_view(r.digital_time_created)
    } else if k == "originating_program"@ {
        opt_view(r.originating_program)
    } else if k == "program_version"@ {
        opt_view(r.program_version)
    } else if k == "object_cycle"@ {
        opt_view(r.object_cycle)
    } else if k == "by_line"@ {
        opt_view(r.by_line)
    } else if k == "by_line_title"@ {
        opt_view(r.by_line_title)
    } else if k == "city"@ {
        opt_view(r.city)
    } else if k == "sub_location"@ {
        opt_view(r.sub_location)
    } else if k == "province_or_state"@ {
        opt_view(r.province_or_state)
    } else if k == "country_or_primary_location_code"@ {
        opt_view(r.country_or_primary_location_code)
    } else if k == "country_or_primary_location_name"@ {
        opt_view(r.country_or_primary_location_name)
    } else if k == "original_transmission_reference"@ {
        opt_view(r.original_transmission_reference)
    } else if k == "headline"@ {
        opt_view(r.headline)
    } else if k == "credit"@ {
        opt_view(r.credit)
    } else if k == "source"@ {
        opt_view(r.source)
    } else if k == "copyright_notice"@ {
        opt_view(r.copyright_notice)
    } else if k == "contact"@ {
        opt_view(r.contact)
    } else if k == "caption"@ {
        opt_view(r.caption)
    } else if k == "local_caption"@ {
        opt_view(r.local_caption)
    } else if k == "caption_writer"@ {
        opt_view(r.caption_writer)
    } else if k == "rasterized_caption"@ {
        opt_view(r.rasterized_caption)
    } else if k == "image_type"@ {
        opt_view(r.image_type)
    } else if k == "image_orientation"@ {
        opt_view(r.image_orientation)
    } else if k == "language_identifier"@ {
        opt_view(r.language_identifier)
    } else if k == "audio_type"@ {
        opt_view(r.audio_type)
    } else if k == "audio_sampling_rate"@ {
        opt_view(r.audio_sampling_rate)
    } else if k == "audio_sampling_resolution"@ {
        opt_view(r.audio_sampling_resolution)
    } else if k == "audio_duration"@ {
        opt_view(r.audio_duration)
    } else if k == "audio_outcue"@ {
        opt_view(r.audio_outcue)
    } else if k == "job_id"@ {
        opt_view(r.job_id)
    } else if k == "master_document_id"@ {
        opt_view(r.master_document_id)
    } else if k == "short_document_id"@ {
        opt_view(r.short_document_id)
    } else if k == "unique_document_id"@ {
        opt_view(r.unique_document_id)
    } else if k == "owner_id"@ {
        opt_view(r.owner_id)
    } else {
        None
    }
}

/// `r` with the field named `k` set to `v`.
pub open spec fn iptc_with(r: ImageIptc, k: Seq<char>, v: String) -> ImageIptc {
    if k == "image_path"@ {
        ImageIptc { image_path: v, ..r }
    } else if k == "model_version"@ {
        ImageIptc { model_version: Some(v), ..r }
    } else if k == "date_sent"@ {
        ImageIptc { date_sent: Some(v), ..r }
    } else if k == "time_sent"@ {
        ImageIptc { time_sent: Some(v), ..r }
    } else if k == "coded_character_set"@ {
        ImageIptc { coded_character_set: Some(v), ..r }
    } else if k == "record_version"@ {
        ImageIptc { record_version: Some(v), ..r }
    } else if k == "object_type_reference"@ {
        ImageIptc { object_type_reference: Some(v), ..r }
    } else if k == "object_attribute_reference"@ {
        ImageIptc { object_attribute_reference: Some(v), ..r }
    } else if k == "object_name"@ {
        ImageIptc { object_name: Some(v), ..r }
    } else if k == "edit_status"@ {
        ImageIptc { edit_status: Some(v), ..r }
    } else if k == "editorial_update"@ {
        ImageIptc { editorial_update: Some(v), ..r }
    } else if k == "urgency"@ {
        ImageIptc { urgency: Some(v), ..r }
    } else if k == "subject_reference"@ {
        ImageIptc { subject_reference: Some(v), ..r }
    } else if k == "category"@ {
        ImageIptc { category: Some(v), ..r }
    } else if k == "supplemental_categories"@ {
        ImageIptc { supplemental_categories: Some(v), ..r }
    } else if k == "fixture_id"@ {
        ImageIptc { fixture_id: Some(v), ..r }
    } else if k == "keywords"@ {
        ImageIptc { keywords: Some(v), ..r }
    } else if k == "content_location_code"@ {
        ImageIptc { content_location_code: Some(v), ..r }
    } else if k == "content_location_name"@ {
        ImageIptc { content_location_name: Some(v), ..r }
    } else if k == "release_date"@ {
        ImageIptc { release_date: Some(v), ..r }
    } else if k == "release_time"@ {
        ImageIptc { release_time: Some(v), ..r }
    } else if k == "expiration_date"@ {
        ImageIptc { expiration_date: Some(v), ..r }
    } else if k == "expiration_time"@ {
        ImageIptc { expiration_time: Some(v), ..r }
    } else if k == "special_instructions"@ {
        ImageIptc { special_instructions: Some(v), ..r }
    } else if k == "action_advised"@ {
        ImageIptc { action_advised: Some(v), ..r }
    } else if k == "reference_service"@ {
        ImageIptc { reference_service: Some(v), ..r }
    } else if k == "reference_date"@ {
        ImageIptc { reference_date: Some(v), ..r }
    } else if k == "reference_number"@ {
        ImageIptc { reference_number: Some(v), ..r }
    } else if k == "date_created"@ {
        ImageIptc { date_created: Some(v), ..r }
    } else if k == "time_created"@ {
        ImageIptc { time_created: Some(v), ..r }
    } else if k == "digital_date_created"@ {
        ImageIptc { digital_date_created: Some(v), ..r }
    } else if k == "digital_time_created"@ {
        ImageIptc { digital_time_created: Some(v), ..r }
    } else if k == "originating_program"@ {
        ImageIptc { originating_program: Some(v), ..r }
    } else if k == "program_version"@ {
        ImageIptc { program_version: Some(v), ..r }
    } else if k == "object_cycle"@ {
        ImageIptc { object_cycle: Some(v), ..r }
    } else if k == "by_line"@ {
        ImageIptc { by_line: Some(v), ..r }
    } else if k == "by_line_title"@ {
        ImageIptc { by_line_title: Some(v), ..r }
    } else if k == "city"@ {
        ImageIptc { city: Some(v), ..r }
    } else if k == "sub_location"@ {
        ImageIptc { sub_location: Some(v), ..r }
    } else if k == "province_or_state"@ {
        ImageIptc { province_or_state: Some(v), ..r }
    } else if k == "country_or_primary_location_code"@ {
        ImageIptc { country_or_primary_location_code: Some(v), ..r }
    } else if k == "country_or_primary_location_name"@ {
        ImageIptc { country_or_primary_location_name: Some(v), ..r }
    } else if k == "original_transmission_reference"@ {
        ImageIptc { original_transmission_reference: Some(v), ..r }
    } else if k == "headline"@ {
        ImageIptc { headline: Some(v), ..r }
    } else if k == "credit"@ {
        ImageIptc { credit: Some(v), ..r }
    } else if k == "source"@ {
        ImageIptc { source: Some(v), ..r }
    } else if k == "copyright_notice"@ {
        ImageIptc { copyright_notice: Some(v), ..r }
    } else if k == "contact"@ {
        ImageIptc { contact: Some(v), ..r }
    } else if k == "caption"@ {
        ImageIptc { caption: Some(v), ..r }
    } else if k == "local_caption"@ {
        ImageIptc { local_caption: Some(v), ..r }
    } else if k == "caption_writer"@ {
        ImageIptc { caption_writer: Some(v), ..r }
    } else if k == "rasterized_caption"@ {
        ImageIptc { rasterized_caption: Some(v), ..r }
    } else if k == "image_type"@ {
        ImageIptc { image_type: Some(v), ..r }
    } else if k == "image_orientation"@ {
        ImageIptc { image_orientation: Some(v), ..r }
    } else if k == "language_identifier"@ {
        ImageIptc { language_identifier: Some(v), ..r }
    } else if k == "audio_type"@ {
        ImageIptc { audio_type: Some(v), ..r }
    } else if k == "audio_sampling_rate"@ {
        ImageIptc { audio_sampling_rate: Some(v), ..r }
    } else if k == "audio_sampling_resolution"@ {
        ImageIptc { audio_sampling_resolution: Some(v), ..r }
    } else if k == "audio_duration"@ {
        ImageIptc { audio_duration: Some(v), ..r }
    } else if k == "audio_outcue"@ {
        ImageIptc { audio_outcue: Some(v), ..r }
    } else if k == "job_id"@ {
        ImageIptc { job_id: Some(v), ..r }
    } else if k == "master_document_id"@ {
        ImageIptc { master_document_id: Some(v), ..r }
    } else if k == "short_document_id"@ {
        ImageIptc { short_document_id: Some(v), ..r }
    } else if k == "unique_document_id"@ {
        ImageIptc { unique_document_id: Some(v), ..r }
    } else if k == "owner_id"@ {
        ImageIptc { owner_id: Some(v), ..r }
    } else {
        r
    }
}

/// Whether every IPTC field of `r` is empty.
pub open spec fn iptc_all_none(r: ImageIptc) -> bool {
    &&& r.model_version is None
    &&& r.date_sent is None
    &&& r.time_sent is None
    &&& r.coded_character_set is None
    &&& r.record_version is None
    &&& r.object_type_reference is None
    &&& r.object_attribute_reference is None
    &&& r.object_name is None
    &&& r.edit_status is None
    &&& r.editorial_update is None
    &&& r.urgency is None
    &&& r.subject_reference is None
    &&& r.category is None
    &&& r.supplemental_categories is None
    &&& r.fixture_id is None
    &&& r.keywords is None
    &&& r.content_location_code is None
    &&& r.content_location_name is None
    &&& r.release_date is None
    &&& r.release_time is None
    &&& r.expiration_date is None
    &&& r.expiration_time is None
    &&& r.special_instructions is None
    &&& r.action_advised is None
    &&& r.reference_service is None
    &&& r.reference_date is None
    &&& r.reference_number is None
    &&& r.date_created is None
    &&& r.time_created is None
    &&& r.digital_date_created is None
    &&& r.digital_time_created is None
    &&& r.originating_program is None
    &&& r.program_version is None
    &&& r.object_cycle is None
    &&& r.by_line is None
    &&& r.by_line_title is None
    &&& r.city is None
    &&& r.sub_location is None
    &&& r.province_or_state is None
    &&& r.country_or_primary_location_code is None
    &&& r.country_or_primary_location_name is None
    &&& r.original_transmission_reference is None
    &&& r.headline is None
    &&& r.credit is None
    &&& r.source is None
    &&& r.copyright_notice is None
    &&& r.contact is None
    &&& r.caption is None
    &&& r.local_caption is None
    &&& r.caption_writer is None
    &&& r.rasterized_caption is None
    &&& r.image_type is None
    &&& r.image_orientation is None
    &&& r.language_identifier is None
    &&& r.audio_type is None
    &&& r.audio_sampling_rate is None
    &&& r.audio_sampling_resolution is None
    &&& r.audio_duration is None
    &&& r.audio_outcue is None
    &&& r.job_id is None
    &&& r.master_document_id is None
    &&& r.short_document_id is None
    &&& r.unique_document_id is None
    &&& r.owner_id is None
}

/// Whether a lookup of `k` ends: `k` is a field name, or it is not in PascalCase, or
/// its snake_case form is a field name or not in PascalCase. (Otherwise the lookup
/// would go on with the snake_case form of the snake_case form.)
pub open spec fn key_resolves(k: Seq<char>) -> bool {
    ||| is_iptc_field(k)
    ||| !is_pascal_case(k)
    ||| is_iptc_field(snake_case_of(k))
    ||| !is_pascal_case(snake_case_of(k))
}

/// The field name `k` stands for: itself, or for a PascalCase name that is not a
/// field name, its snake_case form.
pub open spec fn resolved_key(k: Seq<char>) -> Seq<char> {
    if !is_iptc_field(k) && is_pascal_case(k) {
        snake_case_of(k)
    } else {
        k
    }
}

impl ImageIptc {
    /// IPTC data for `image_path` with every field empty.
    pub fn default(image_path: &str) -> (r: Self)
        ensures
            r.image_path@ == image_path@,
            iptc_all_none(r),
    {
        Self {
            image_path: String::from_str(image_path),
            model_version: None,
            date_sent: None,
            time_sent: None,
            coded_character_set: None,
            record_version: None,
            object_type_reference: None,
            object_attribute_reference: None,
            object_name: None,
            edit_status: None,
            editorial_update: None,
            urgency: None,
            subject_reference: None,
            category: None,
            supplemental_categories: None,
            fixture_id: None,
            keywords: None,
            content_location_code: None,
            content_location_name: None,
            release_date: None,
            release_time: None,
            expiration_date: None,
            expiration_time: None,
            special_instructions: None,
            action_advised: None,
            reference_service: None,
            reference_date: None,
            reference_number: None,
            date_created: None,
            time_created: None,
            digital_date_created: None,
            digital_time_created: None,
            originating_program: None,
            program_version: None,
            object_cycle: None,
            by_line: None,
            by_line_title: None,
            city: None,
            sub_location: None,
            province_or_state: None,
            country_or_primary_location_code: None,
            country_or_primary_location_name: None,
            original_transmission_reference: None,
            headline: None,
            credit: None,
            source: None,
            copyright_notice: None,
            contact: None,
            caption: None,
            local_caption: None,
            caption_writer: None,
            rasterized_caption: None,
            image_type: None,
            image_orientation: None,
            language_identifier: None,
            audio_type: None,
            audio_sampling_rate: None,
            audio_sampling_resolution: None,
            audio_duration: None,
            audio_outcue: None,
            job_id: None,
            master_document_id: None,
            short_document_id: None,
            unique_document_id: None,
            owner_id: None,
        }
    }

    /// Whether every IPTC field is empty (the image path is not counted).
    pub fn is_none(&self) -> (r: bool)
        ensures
            r == iptc_all_none(*self),
    {
        self.model_version.is_none() &&
        self.date_sent.is_none() &&
        self.time_sent.is_none() &&
        self.coded_character_set.is_none() &&
        self.record_version.is_none() &&
        self.object_type_reference.is_none() &&
        self.object_attribute_reference.is_none() &&
        self.object_name.is_none() &&
        self.edit_status.is_none() &&
        self.editorial_update.is_none() &&
        self.urgency.is_none() &&
        self.subject_reference.is_none() &&
        self.category.is_none() &&
        self.supplemental_categories.is_none() &&
        self.fixture_id.is_none() &&
        self.keywords.is_none() &&
        self.content_location_code.is_none() &&
        self.content_location_name.is_none() &&
        self.release_date.is_none() &&
        self.release_time.is_none() &&
        self.expiration_date.is_none() &&
        self.expiration_time.is_none() &&
        self.special_instructions.is_none() &&
        self.action_advised.is_none() &&
        self.reference_service.is_none() &&
        self.reference_date.is_none() &&
        self.reference_number.is_none() &&
        self.date_created.is_none() &&
        self.time_created.is_none() &&
        self.digital_date_created.is_none() &&
        self.digital_time_created.is_none() &&
        self.originating_program.is_none() &&
        self.program_version.is_none() &&
        self.object_cycle.is_none() &&
        self.by_line.is_none() &&
        self.by_line_title.is_none() &&
        self.city.is_none() &&
        self.sub_location.is_none() &&
        self.province_or_state.is_none() &&
        self.country_or_primary_location_code.is_none() &&
        self.country_or_primary_location_name.is_none() &&
        self.original_transmission_reference.is_none() &&
        self.headline.is_none() &&
        self.credit.is_none() &&
        self.source.is_none() &&
        self.copyright_notice.is_none() &&
        self.contact.is_none() &&
        self.caption.is_none() &&
        self.local_caption.is_none() &&
        self.caption_writer.is_none() &&
        self.rasterized_caption.is_none() &&
        self.image_type.is_none() &&
        self.image_orientation.is_none() &&
        self.language_identifier.is_none() &&
        self.audio_type.is_none() &&
        self.audio_sampling_rate.is_none() &&
        self.audio_sampling_resolution.is_none() &&
        self.audio_duration.is_none() &&
        self.audio_outcue.is_none() &&
        self.job_id.is_none() &&
        self.master_document_id.is_none() &&
        self.short_document_id.is_none() &&
        self.unique_document_id.is_none() &&
        self.owner_id.is_none()
    }

    fn get_field_exact(&self, c: &str) -> (r: Option<Option<String>>)
        ensures
            match r {
                Some(v) => is_iptc_field(c@) && opt_view(v) == iptc_value(*self, c@),
                None => !is_iptc_field(c@),
            },
    {
        if str_eq(c, "image_path") {
            return Some(Some(self.image_path.clone()));
        }
        if str_eq(c, "model_version") {
            return Some(clone_opt(&self.model_version));
        }
        if str_eq(c, "date_sent") {
            return Some(clone_opt(&self.date_sent));
        }
        if str_eq(c, "time_sent") {
            return Some(clone_opt(&self.time_sent));
        }
        if str_eq(c, "coded_character_set") {
            return Some(clone_opt(&self.coded_character_set));
        }
        if str_eq(c, "record_version") {
            return Some(clone_opt(&self.record_version));
        }
        if str_eq(c, "object_type_reference") {
            return Some(clone_opt(&self.object_type_reference));
        }
        if str_eq(c, "object_attribute_reference") {
            return Some(clone_opt(&self.object_attribute_reference));
        }
        if str_eq(c, "object_name") {
            return Some(clone_opt(&self.object_name));
        }
        if str_eq(c, "edit_status") {
            return Some(clone_opt(&self.edit_status));
        }
        if str_eq(c, "editorial_update") {
            return Some(clone_opt(&self.editorial_update));
        }
        if str_eq(c, "urgency") {
            return Some(clone_opt(&self.urgency));
        }
        if str_eq(c, "subject_reference") {
            return Some(clone_opt(&self.subject_reference));
        }
        if str_eq(c, "category") {
            return Some(clone_opt(&self.category));
        }
        if str_eq(c, "supplemental_categories") {
            return Some(clone_opt(&self.supplemental_categories));
        }
        if str_eq(c, "fixture_id") {
            return Some(clone_opt(&self.fixture_id));
        }
        if str_eq(c, "keywords") {
            return Some(clone_opt(&self.keywords));
        }
        if str_eq(c, "content_location_code") {
            return Some(clone_opt(&self.content_location_code));
        }
        if str_eq(c, "content_location_name") {
            return Some(clone_opt(&self.content_location_name));
        }
        if str_eq(c, "release_date") {
            return Some(clone_opt(&self.release_date));
        }
        if str_eq(c, "release_time") {
            return Some(clone_opt(&self.release_time));
        }
        if str_eq(c, "expiration_date") {
            return Some(clone_opt(&self.expiration_date));
        }
        if str_eq(c, "expiration_time") {
            return Some(clone_opt(&self.expiration_time));
        }
        if str_eq(c, "special_instructions") {
            return Some(clone_opt(&self.special_instructions));
        }
        if str_eq(c, "action_advised") {
            return Some(clone_opt(&self.action_advised));
        }
        if str_eq(c, "reference_service") {
            return Some(clone_opt(&self.reference_service));
        }
        if str_eq(c, "reference_date") {
            return Some(clone_opt(&self.reference_date));
        }
        if str_eq(c, "reference_number") {
            return Some(clone_opt(&self.reference_number));
        }
        if str_eq(c, "date_created") {
            return Some(clone_opt(&self.date_created));
        }
        if str_eq(c, "time_created") {
            return Some(clone_opt(&self.time_created));
        }
        if str_eq(c, "digital_date_created") {
            return Some(clone_opt(&self.digital_date_created));
        }
        if str_eq(c, "digital_time_created") {
            return Some(clone_opt(&self.digital_time_created));
        }
        if str_eq(c, "originating_program") {
            return Some(clone_opt(&self.originating_program));
        }
        if str_eq(c, "program_version") {
            return Some(clone_opt(&self.program_version));
        }
        if str_eq(c, "object_cycle") {
            return Some(clone_opt(&self.object_cycle));
        }
        if str_eq(c, "by_line") {
            return Some(clone_opt(&self.by_line));
        }
        if str_eq(c, "by_line_title") {
            return Some(clone_opt(&self.by_line_title));
        }
        if str_eq(c, "city") {
            return Some(clone_opt(&self.city));
        }
        if str_eq(c, "sub_location") {
            return Some(clone_opt(&self.sub_location));
        }
        if str_eq(c, "province_or_state") {
            return Some(clone_opt(&self.province_or_state));
        }
        if str_eq(c, "country_or_primary_location_code") {
            return Some(clone_opt(&self.country_or_primary_location_code));
        }
        if str_eq(c, "country_or_primary_location_name") {
            return Some(clone_opt(&self.country_or_primary_location_name));
        }
        if str_eq(c, "original_transmission_reference") {
            return Some(clone_opt(&self.original_transmission_reference));
        }
        if str_eq(c, "headline") {
            return Some(clone_opt(&self.headline));
        }
        if str_eq(c, "credit") {
            return Some(clone_opt(&self.credit));
        }
        if str_eq(c, "source") {
            return Some(clone_opt(&self.source));
        }
        if str_eq(c, "copyright_notice") {
            return Some(clone_opt(&self.copyright_notice));
        }
        if str_eq(c, "contact") {
            return Some(clone_opt(&self.contact));
        }
        if str_eq(c, "caption") {
            return Some(clone_opt(&self.caption));
        }
        if str_eq(c, "local_caption") {
            return Some(clone_opt(&self.local_caption));
        }
        if str_eq(c, "caption_writer") {
            return Some(clone_opt(&self.caption_writer));
        }
        if str_eq(c, "rasterized_caption") {
            return Some(clone_opt(&self.rasterized_caption));
        }
        if str_eq(c, "image_type") {
            return Some(clone_opt(&self.image_type));
        }
        if str_eq(c, "image_orientation") {
            return Some(clone_opt(&self.image_orientation));
        }
        if str_eq(c, "language_identifier") {
            return Some(clone_opt(&self.language_identifier));
        }
        if str_eq(c, "audio_type") {
            return Some(clone_opt(&self.audio_type));
        }
        if str_eq(c, "audio_sampling_rate") {
            return Some(clone_opt(&self.audio_sampling_rate));
        }
        if str_eq(c, "audio_sampling_resolution") {
            return Some(clone_opt(&self.audio_sampling_resolution));
        }
        if str_eq(c, "audio_duration") {
            return Some(clone_opt(&self.audio_duration));
        }
        if str_eq(c, "audio_outcue") {
            return Some(clone_opt(&self.audio_outcue));
        }
        if str_eq(c, "job_id") {
            return Some(clone_opt(&self.job_id));
        }
        if str_eq(c, "master_document_id") {
            return Some(clone_opt(&self.master_document_id));
        }
        if str_eq(c, "short_document_id") {
            return Some(clone_opt(&self.short_document_id));
        }
        if str_eq(c, "unique_document_id") {
            return Some(clone_opt(&self.unique_document_id));
        }
        if str_eq(c, "owner_id") {
            return Some(clone_opt(&self.owner_id));
        }
        None
    }

    fn set_field_exact(&mut self, key: &str, value: String) -> (r: bool)
        ensures
            r == is_iptc_field(key@),
            *final(self) == iptc_with(*old(self), key@, value),
    {
        if str_eq(key, "image_path") {
            self.image_path = value;
            return true;
        }
        if str_eq(key, "model_version") {
            self.model_version = Some(value);
            return true;
        }
        if str_eq(key, "date_sent") {
            self.date_sent = Some(value);
            return true;
        }
        if str_eq(key, "time_sent") {
            self.time_sent = Some(value);
            return true;
        }
        if str_eq(key, "coded_character_set") {
            self.coded_character_set = Some(value);
            return true;
        }
        if str_eq(key, "record_version") {
            self.record_version = Some(value);
            return true;
        }
        if str_eq(key, "object_type_reference") {
            self.object_type_reference = Some(value);
            return true;
        }
        if str_eq(key, "object_attribute_reference") {
            self.object_attribute_reference = Some(value);
            return true;
        }
        if str_eq(key, "object_name") {
            self.object_name = Some(value);
            return true;
        }
        if str_eq(key, "edit_status") {
            self.edit_status = Some(value);
            return true;
        }
        if str_eq(key, "editorial_update") {
            self.editorial_update = Some(value);
            return true;
        }
        if str_eq(key, "urgency") {
            self.urgency = Some(value);
            return true;
        }
        if str_eq(key, "subject_reference") {
            self.subject_reference = Some(value);
            return true;
        }
        if str_eq(key, "category") {
            self.category = Some(value);
            return true;
        }
        if str_eq(key, "supplemental_categories") {
            self.supplemental_categories = Some(value);
            return true;
        }
        if str_eq(key, "fixture_id") {
            self.fixture_id = Some(value);
            return true;
        }
        if str_eq(key, "keywords") {
            self.keywords = Some(value);
            return true;
        }
        if str_eq(key, "content_location_code") {
            self.content_location_code = Some(value);
            return true;
        }
        if str_eq(key, "content_location_name") {
            self.content_location_name = Some(value);
            return true;
        }
        if str_eq(key, "release_date") {
            self.release_date = Some(value);
            return true;
        }
        if str_eq(key, "release_time") {
            self.release_time = Some(value);
            return true;
        }
        if str_eq(key, "expiration_date") {
            self.expiration_date = Some(value);
            return true;
        }
        if str_eq(key, "expiration_time") {
            self.expiration_time = Some(value);
            return true;
        }
        if str_eq(key, "special_instructions") {
            self.special_instructions = Some(value);
            return true;
        }
        if str_eq(key, "action_advised") {
            self.action_advised = Some(value);
            return true;
        }
        if str_eq(key, "reference_service") {
            self.reference_service = Some(value);
            return true;
        }
        if str_eq(key, "reference_date") {
            self.reference_date = Some(value);
            return true;
        }
        if str_eq(key, "reference_number") {
            self.reference_number = Some(value);
            return true;
        }
        if str_eq(key, "date_created") {
            self.date_created = Some(value);
            return true;
        }
        if str_eq(key, "time_created") {
            self.time_created = Some(value);
            return true;
        }
        if str_eq(key, "digital_date_created") {
            self.digital_date_created = Some(value);
            return true;
        }
        if str_eq(key, "digital_time_created") {
            self.digital_time_created = Some(value);
            return true;
        }
        if str_eq(key, "originating_program") {
            self.originating_program = Some(value);
            return true;
        }
        if str_eq(key, "program_version") {
            self.program_version = Some(value);
            return true;
        }
        if str_eq(key, "object_cycle") {
            self.object_cycle = Some(value);
            return true;
        }
        if str_eq(key, "by_line") {
            self.by_line = Some(value);
            return true;
        }
        if str_eq(key, "by_line_title") {
            self.by_line_title = Some(value);
            return true;
        }
        if str_eq(key, "city") {
            self.city = Some(value);
            return true;
        }
        if str_eq(key, "sub_location") {
            self.sub_location = Some(value);
            return true;
        }
        if str_eq(key, "province_or_state") {
            self.province_or_state = Some(value);
            return true;
        }
        if str_eq(key, "country_or_primary_location_code") {
            self.country_or_primary_location_code = Some(value);
            return true;
        }
        if str_eq(key, "country_or_primary_location_name") {
            self.country_or_primary_location_name = Some(value);
            return true;
        }
        if str_eq(key, "original_transmission_reference") {
            self.original_transmission_reference = Some(value);
            return true;
        }
        if str_eq(key, "headline") {
            self.headline = Some(value);
            return true;
        }
        if str_eq(key, "credit") {
            self.credit = Some(value);
            return true;
        }
        if str_eq(key, "source") {
            self.source = Some(value);
            return true;
        }
        if str_eq(key, "copyright_notice") {
            self.copyright_notice = Some(value);
            return true;
        }
        if str_eq(key, "contact") {
            self.contact = Some(value);
            return true;
        }
        if str_eq(key, "caption") {
            self.caption = Some(value);
            return true;
        }
        if str_eq(key, "local_caption") {
            self.local_caption = Some(value);
            return true;
        }
        if str_eq(key, "caption_writer") {
            self.caption_writer = Some(value);
            return true;
        }
        if str_eq(key, "rasterized_caption") {
            self.rasterized_caption = Some(value);
            return true;
        }
        if str_eq(key, "image_type") {
            self.image_type = Some(value);
            return true;
        }
        if str_eq(key, "image_orientation") {
            self.image_orientation = Some(value);
            return true;
        }
        if str_eq(key, "language_identifier") {
            self.language_identifier = Some(value);
            return true;
        }
        if str_eq(key, "audio_type") {
            self.audio_type = Some(value);
            return true;
        }
        if str_eq(key, "audio_sampling_rate") {
            self.audio_sampling_rate = Some(value);
            return true;
        }
        if str_eq(key, "audio_sampling_resolution") {
            self.audio_sampling_resolution = Some(value);
            return true;
        }
        if str_eq(key, "audio_duration") {
            self.audio_duration = Some(value);
            return true;
        }
        if str_eq(key, "audio_outcue") {
            self.audio_outcue = Some(value);
            return true;
        }
        if str_eq(key, "job_id") {
            self.job_id = Some(value);
            return true;
        }
        if str_eq(key, "master_document_id") {
            self.master_document_id = Some(value);
            return true;
        }
        if str_eq(key, "short_document_id") {
            self.short_document_id = Some(value);
            return true;
        }
        if str_eq(key, "unique_document_id") {
            self.unique_document_id = Some(value);
            return true;
        }
        if str_eq(key, "owner_id") {
            self.owner_id = Some(value);
            return true;
        }
        false
    }

    /// The value of the field named `c`; a PascalCase name that is not a field name is
    /// looked up in snake_case. `None` for names of no field.
    pub fn get_field(&self, c: &str) -> (r: Option<String>)
        requires
            key_resolves(c@),
        ensures
            opt_view(r) == iptc_value(*self, resolved_key(c@)),
    {
        match self.get_field_exact(c) {
            Some(v) => v,
            None => {
                if is_pascal(c) {
                    let snake = to_snake_case(c);
                    match self.get_field_exact(snake.as_str()) {
                        Some(v) => v,
                        None => None,
                    }
                } else {
                    None
                }
            },
        }
    }

    /// `get_field` for any name: `None` when the lookup of `c` would not end (see
    /// [`key_resolves`]), the lookup's result otherwise.
    pub fn try_get_field(&self, c: &str) -> (r: Option<Option<String>>)
        ensures
            match r {
                Some(v) => key_resolves(c@) && opt_view(v) == iptc_value(*self, resolved_key(c@)),
                None => !key_resolves(c@),
            },
    {
        if is_iptc_field_name(c) || !is_pascal(c) {
            return Some(self.get_field(c));
        }
        let snake = to_snake_case(c);
        if is_iptc_field_name(snake.as_str()) || !is_pascal(snake.as_str()) {
            Some(self.get_field(c))
        } else {
            None
        }
    }

    /// Sets the field named `key` to `value`; a PascalCase name that is not a field
    /// name is tried in snake_case. A name of no field is an error of kind `NotFound`,
    /// and nothing changes.
    pub fn set_field_value(&mut self, key: String, value: String) -> (r: std::io::Result<()>)
        requires
            key_resolves(key@),
        ensures
            r is Ok <==> is_iptc_field(resolved_key(key@)),
            *final(self) == iptc_with(*old(self), resolved_key(key@), value),
    {
        if is_iptc_field_name(key.as_str()) {
            self.set_field_exact(key.as_str(), value);
            return Ok(());
        }
        if is_pascal(key.as_str()) {
            let snake = to_snake_case(key.as_str());
            if self.set_field_exact(snake.as_str(), value) {
                Ok(())
            } else {
                Err(crate::io_error::not_found(snake))
            }
        } else {
            Err(crate::io_error::not_found(key))
        }
    }

    /// `set_field_value` for any name: `None`, with nothing changed, when the lookup
    /// of `key` would not end (see [`key_resolves`]).
    pub fn try_set_field_value(&mut self, key: String, value: String) -> (r: Option<
        std::io::Result<()>,
    >)
        ensures
            match r {
                Some(res) => {
                    &&& key_resolves(key@)
                    &&& (res is Ok <==> is_iptc_field(resolved_key(key@)))
                    &&& *final(self) == iptc_with(*old(self), resolved_key(key@), value)
                },
                None => !key_resolves(key@) && *final(self) == *old(self),
            },
    {
        if is_iptc_field_name(key.as_str()) || !is_pascal(key.as_str()) {
            return Some(self.set_field_value(key, value));
        }
        let snake = to_snake_case(key.as_str());
        if is_iptc_field_name(snake.as_str()) || !is_pascal(snake.as_str()) {
            Some(self.set_field_value(key, value))
        } else {
            None
        }
    }
}

/// Whether `k` is the name of a field of [`ImageIptc`].
pub fn is_iptc_field_name(k: &str) -> (r: bool)
    ensures
        r == is_iptc_field(k@),
{
    str_eq(k, "image_path") ||
    str_eq(k, "model_version") ||
    str_eq(k, "date_sent") ||
    str_eq(k, "time_sent") ||
    str_eq(k, "coded_character_set") ||
    str_eq(k, "record_version") ||
    str_eq(k, "object_type_reference") ||
    str_eq(k, "object_attribute_reference") ||
    str_eq(k, "object_name") ||
    str_eq(k, "edit_status") ||
    str_eq(k, "editorial_update") ||
    str_eq(k, "urgency") ||
    str_eq(k, "subject_reference") ||
    str_eq(k, "category") ||
    str_eq(k, "supplemental_categories") ||
    str_eq(k, "fixture_id") ||
    str_eq(k, "keywords") ||
    str_eq(k, "content_location_code") ||
    str_eq(k, "content_location_name") ||
    str_eq(k, "release_date") ||
    str_eq(k, "release_time") ||
    str_eq(k, "expiration_date") ||
    str_eq(k, "expiration_time") ||
    str_eq(k, "special_instructions") ||
    str_eq(k, "action_advised") ||
    str_eq(k, "reference_service") ||
    str_eq(k, "reference_date") ||
    str_eq(k, "reference_number") ||
    str_eq(k, "date_created") ||
    str_eq(k, "time_created") ||
    str_eq(k, "digital_date_created") ||
    str_eq(k, "digital_time_created") ||
    str_eq(k, "originating_program") ||
    str_eq(k, "program_version") ||
    str_eq(k, "object_cycle") ||
    str_eq(k, "by_line") ||
    str_eq(k, "by_line_title") ||
    str_eq(k, "city") ||
    str_eq(k, "sub_location") ||
    str_eq(k, "province_or_state") ||
    str_eq(k, "country_or_primary_location_code") ||
    str_eq(k, "country_or_primary_location_name") ||
    str_eq(k, "original_transmission_reference") ||
    str_eq(k, "headline") ||
    str_eq(k, "credit") ||
    str_eq(k, "source") ||
    str_eq(k, "copyright_notice") ||
    str_eq(k, "contact") ||
    str_eq(k, "caption") ||
    str_eq(k, "local_caption") ||
    str_eq(k, "caption_writer") ||
    str_eq(k, "rasterized_caption") ||
    str_eq(k, "image_type") ||
    str_eq(k, "image_orientation") ||
    str_eq(k, "language_identifier") ||
    str_eq(k, "audio_type") ||
    str_eq(k, "audio_sampling_rate") ||
    str_eq(k, "audio_sampling_resolution") ||
    str_eq(k, "audio_duration") ||
    str_eq(k, "audio_outcue") ||
    str_eq(k, "job_id") ||
    str_eq(k, "master_document_id") ||
    str_eq(k, "short_document_id") ||
    str_eq(k, "unique_document_id") ||
    str_eq(k, "owner_id")
}

/// Reading a field after writing it gives the written value, and writing a field leaves
/// every other field as it was.
#[verifier::rlimit(60)]
pub proof fn lemma_iptc_read_after_write(r: ImageIptc, k: Seq<char>, v: String, k2: Seq<char>)
    requires
        is_iptc_field(k),
        is_iptc_field(k2),
    ensures
        iptc_value(iptc_with(r, k, v), k2) == (if k2 == k {
            Some(v@)
        } else {
            iptc_value(r, k2)
        }),
{
}

/// The lengths of the field names.
proof fn lemma_field_name_lengths()
    ensures
        "image_path"@.len() == 10,
        "model_version"@.len() == 13,
        "date_sent"@.len() == 9,
        "time_sent"@.len() == 9,
        "coded_character_set"@.len() == 19,
        "record_version"@.len() == 14,
        "object_type_reference"@.len() == 21,
        "object_attribute_reference"@.len() == 26,
        "object_name"@.len() == 11,
        "edit_status"@.len() == 11,
        "editorial_update"@.len() == 16,
        "urgency"@.len() == 7,
        "subject_reference"@.len() == 17,
        "category"@.len() == 8,
        "supplemental_categories"@.len() == 23,
        "fixture_id"@.len() == 10,
        "keywords"@.len() == 8,
        "content_location_code"@.len() == 21,
        "content_location_name"@.len() == 21,
        "release_date"@.len() == 12,
        "release_time"@.len() == 12,
        "expiration_date"@.len() == 15,
        "expiration_time"@.len() == 15,
        "special_instructions"@.len() == 20,
        "action_advised"@.len() == 14,
        "reference_service"@.len() == 17,
        "reference_date"@.len() == 14,
        "reference_number"@.len() == 16,
        "date_created"@.len() == 12,
        "time_created"@.len() == 12,
        "digital_date_created"@.len() == 20,
        "digital_time_created"@.len() == 20,
        "originating_program"@.len() == 19,
        "program_version"@.len() == 15,
        "object_cycle"@.len() == 12,
        "by_line"@.len() == 7,
        "by_line_title"@.len() == 13,
        "city"@.len() == 4,
        "sub_location"@.len() == 12,
        "province_or_state"@.len() == 17,
        "country_or_primary_location_code"@.len() == 32,
        "country_or_primary_location_name"@.len() == 32,
        "original_transmission_reference"@.len() == 31,
        "headline"@.len() == 8,
        "credit"@.len() == 6,
        "source"@.len() == 6,
        "copyright_notice"@.len() == 16,
        "contact"@.len() == 7,
        "caption"@.len() == 7,
        "local_caption"@.len() == 13,
        "caption_writer"@.len() == 14,
        "rasterized_caption"@.len() == 18,
        "image_type"@.len() == 10,
        "image_orientation"@.len() == 17,
        "language_identifier"@.len() == 19,
        "audio_type"@.len() == 10,
        "audio_sampling_rate"@.len() == 19,
        "audio_sampling_resolution"@.len() == 25,
        "audio_duration"@.len() == 14,
        "audio_outcue"@.len() == 12,
        "job_id"@.len() == 6,
        "master_document_id"@.len() == 18,
        "short_document_id"@.len() == 17,
        "unique_document_id"@.len() == 18,
        "owner_id"@.len() == 8,
{
    reveal_strlit("image_path");
    reveal_strlit("model_version");
    reveal_strlit("date_sent");
    reveal_strlit("time_sent");
    reveal_strlit("coded_character_set");
    reveal_strlit("record_version");
    reveal_strlit("object_type_reference");
    reveal_strlit("object_attribute_reference");
    reveal_strlit("object_name");
    reveal_strlit("edit_status");
    reveal_strlit("editorial_update");
    reveal_strlit("urgency");
    reveal_strlit("subject_reference");
    reveal_strlit("category");
    reveal_strlit("supplemental_categories");
    reveal_strlit("fixture_id");
    reveal_strlit("keywords");
    reveal_strlit("content_location_code");
    reveal_strlit("content_location_name");
    reveal_strlit("release_date");
    reveal_strlit("release_time");
    reveal_strlit("expiration_date");
    reveal_strlit("expiration_time");
    reveal_strlit("special_instructions");
    reveal_strlit("action_advised");
    reveal_strlit("reference_service");
    reveal_strlit("reference_date");
    reveal_strlit("reference_number");
    reveal_strlit("date_created");
    reveal_strlit("time_created");
    reveal_strlit("digital_date_created");
    reveal_strlit("digital_time_created");
    reveal_strlit("originating_program");
    reveal_strlit("program_version");
    reveal_strlit("object_cycle");
    reveal_strlit("by_line");
    reveal_strlit("by_line_title");
    reveal_strlit("city");
    reveal_strlit("sub_location");
    reveal_strlit("province_or_state");
    reveal_strlit("country_or_primary_location_code");
    reveal_strlit("country_or_primary_location_name");
    reveal_strlit("original_transmission_reference");
    reveal_strlit("headline");
    reveal_strlit("credit");
    reveal_strlit("source");
    reveal_strlit("copyright_notice");
    reveal_strlit("contact");
    reveal_strlit("caption");
    reveal_strlit("local_caption");
    reveal_strlit("caption_writer");
    reveal_strlit("rasterized_caption");
    reveal_strlit("image_type");
    reveal_strlit("image_orientation");
    reveal_strlit("language_identifier");
    reveal_strlit("audio_type");
    reveal_strlit("audio_sampling_rate");
    reveal_strlit("audio_sampling_resolution");
    reveal_strlit("audio_duration");
    reveal_strlit("audio_outcue");
    reveal_strlit("job_id");
    reveal_strlit("master_document_id");
    reveal_strlit("short_document_id");
    reveal_strlit("unique_document_id");
    reveal_strlit("owner_id");
}

#[verifier::spinoff_prover]
proof fn lemma_name_image_path(r: ImageIptc, v: String)
    ensures
        iptc_with(r, "image_path"@, v) == (ImageIptc { image_path: v, ..r }),
        iptc_value(r, "image_path"@) == Some(r.image_path@),
{
    lemma_field_name_lengths();
}

#[verifier::spinoff_prover]
proof fn lemma_name_model_version(r: ImageIptc, v: String)
    ensures
        iptc_with(r, "model_version"@, v) == (ImageIptc { model_version: Some(v), ..r }),
        iptc_value(r, "model_version"@) == opt_view(r.model_version),
{
    lemma_field_name_lengths();
}

#[verifier::spinoff_prover]
proof fn lemma_name_date_sent(r: ImageIptc, v: String)
    ensures
        iptc_with(r, "date_sent"@, v) == (ImageIptc { date_sent: Some(v), ..r }),
        iptc_value(r, "date_sent"@) == opt_view(r.date_sent),
{
    lemma_field_name_lengths();
}

#[verifier::spinoff_prover]
proof fn lemma_name_time_sent(r: ImageIptc, v: String)
    ensures
        iptc_with(r, "time_sent"@, v) == (ImageIptc { time_sent: Some(v), ..r }),
        iptc_value(r, "time_sent"@) == opt_view(r.time_sent),
{
    lemma_field_name_lengths();
    assert("time_sent"@[0] != "date_sent"@[0]) by { reveal_strlit("time_sent"); reveal_strlit("date_sent"); }
}

#[verifier::spinoff_prover]
proof fn lemma_name_coded_character_set(r: ImageIptc, v: String)
    ensures
        iptc_with(r, "coded_character_set"@, v) == (ImageIptc { coded_character_set: Some(v), ..r }),
        iptc_value(r, "coded_character_set"@) == opt_view(r.coded_character_set),
{
    lemma_field_name_lengths();
}

#[verifier::spinoff_prover]
proof fn lemma_name_record_version(r: ImageIptc, v: String)
    ensures
        iptc_with(r, "record_version"@, v) == (ImageIptc { record_version: Some(v), ..r }),
        iptc_value(r, "record_version"@) == opt_view(r.record_version),
{
    lemma_field_name_lengths();
}

#[verifier::spinoff_prover]
proof fn lemma_name_object_type_reference(r: ImageIptc, v: String)
    ensures
        iptc_with(r, "object_type_reference"@, v) == (ImageIptc { object_type_reference: Some(v), ..r }),
        iptc_value(r, "object_type_reference"@) == opt_view(r.object_type_reference),
{
    lemma_field_name_lengths();
}

#[verifier::spinoff_prover]
proof fn lemma_name_object_attribute_reference(r: ImageIptc, v: String)
    ensures
        iptc_with(r, "object_attribute_reference"@, v) == (ImageIptc { object_attribute_reference: Some(v), ..r }),
        iptc_value(r, "object_attribute_reference"@) == opt_view(r.object_attribute_reference),
{
    lemma_field_name_lengths();
}

#[verifier::spinoff_prover]
proof fn lemma_name_object_name(r: ImageIptc, v: String)
    ensures
        iptc_with(r, "object_name"@, v) == (ImageIptc { object_name: Some(v), ..r }),
        iptc_value(r, "object_name"@) == opt_view(r.object_name),
{
    lemma_field_name_lengths();
}

#[verifier::spinoff_prover]
proof fn lemma_name_edit_status(r: ImageIptc, v: String)
    ensures
        iptc_with(r, "edit_status"@, v) == (ImageIptc { edit_status: Some(v), ..r }),
        iptc_value(r, "edit_status"@) == opt_view(r.edit_status),
{
    lemma_field_name_lengths();
    assert("edit_status"@[0] != "object_name"@[0]) by { reveal_strlit("edit_status"); reveal_strlit("object_name"); }
}

#[verifier::spinoff_prover]
proof fn lemma_name_editorial_update(r: ImageIptc, v: String)
    ensures
        iptc_with(r, "editorial_update"@, v) == (ImageIptc { editorial_update: Some(v), ..r }),
        iptc_value(r, "editorial_update"@) == opt_view(r.editorial_update),
{
    lemma_field_name_lengths();
}

#[verifier::spinoff_prover]
proof fn lemma_name_urgency(r: ImageIptc, v: String)
    ensures
        iptc_with(r, "urgency"@, v) == (ImageIptc { urgency: Some(v), ..r }),
        iptc_value(r, "urgency"@) == opt_view(r.urgency),
{
    lemma_field_name_lengths();
}

#[verifier::spinoff_prover]
proof fn lemma_name_subject_reference(r: ImageIptc, v: String)
    ensures
        iptc_with(r, "subject_reference"@, v) == (ImageIptc { subject_reference: Some(v), ..r }),
        iptc_value(r, "subject_reference"@) == opt_view(r.subject_reference),
{
    lemma_field_name_lengths();
}

#[verifier::spinoff_prover]
proof fn lemma_name_category(r: ImageIptc, v: String)
    ensures
        iptc_with(r, "category"@, v) == (ImageIptc { category: Some(v), ..r }),
        iptc_value(r, "category"@) == opt_view(r.category),
{
    lemma_field_name_lengths();
}

#[verifier::spinoff_prover]
proof fn lemma_name_supplemental_categories(r: ImageIptc, v: String)
    ensures
        iptc_with(r, "supplemental_categories"@, v) == (ImageIptc { supplemental_categories: Some(v), ..r }),
        iptc_value(r, "supplemental_categories"@) == opt_view(r.supplemental_categories),
{
    lemma_field_name_lengths();
}

#[verifier::spinoff_prover]
proof fn lemma_name_fixture_id(r: ImageIptc, v: String)
    ensures
        iptc_with(r, "fixture_id"@, v) == (ImageIptc { fixture_id: Some(v), ..r }),
        iptc_value(r, "fixture_id"@) == opt_view(r.fixture_id),
{
    lemma_field_name_lengths();
    assert("fixture_id"@[0] != "image_path"@[0]) by { reveal_strlit("fixture_id"); reveal_strlit("image_path"); }
}

#[verifier::spinoff_prover]
proof fn lemma_name_keywords(r: ImageIptc, v: String)
    ensures
        iptc_with(r, "keywords"@, v) == (ImageIptc { keywords: Some(v), ..r }),
        iptc_value(r, "keywords"@) == opt_view(r.keywords),
{
    lemma_field_name_lengths();
    assert("keywords"@[0] != "category"@[0]) by { reveal_strlit("keywords"); reveal_strlit("category"); }
}

#[verifier::spinoff_prover]
proof fn lemma_name_content_location_code(r: ImageIptc, v: String)
    ensures
        iptc_with(r, "content_location_code"@, v) == (ImageIptc { content_location_code: Some(v), ..r }),
        iptc_value(r, "content_location_code"@) == opt_view(r.content_location_code),
{
    lemma_field_name_lengths();
    assert("content_location_code"@[0] != "object_type_reference"@[0]) by { reveal_strlit("content_location_code"); reveal_strlit("object_type_reference"); }
}

#[verifier::spinoff_prover]
proof fn lemma_name_content_location_name(r: ImageIptc, v: String)
    ensures
        iptc_with(r, "content_location_name"@, v) == (ImageIptc { content_location_name: Some(v), ..r }),
        iptc_value(r, "content_location_name"@) == opt_view(r.content_location_name),
{
    lemma_field_name_lengths();
    assert("content_location_name"@[0] != "object_type_reference"@[0]) by { reveal_strlit("content_location_name"); reveal_strlit("object_type_reference"); }
    assert("content_location_name"@[17] != "content_location_code"@[17]) by { reveal_strlit("content_location_name"); reveal_strlit("content_location_code"); }
}

#[verifier::spinoff_prover]
proof fn lemma_name_release_date(r: ImageIptc, v: String)
    ensures
        iptc_with(r, "release_date"@, v) == (ImageIptc { release_date: Some(v), ..r }),
        iptc_value(r, "release_date"@) == opt_view(r.release_date),
{
    lemma_field_name_lengths();
}

#[verifier::spinoff_prover]
proof fn lemma_name_release_time(r: ImageIptc, v: String)
    ensures
        iptc_with(r, "release_time"@, v) == (ImageIptc { release_time: Some(v), ..r }),
        iptc_value(r, "release_time"@) == opt_view(r.release_time),
{
    lemma_field_name_lengths();
    assert("release_time"@[8] != "release_date"@[8]) by { reveal_strlit("release_time"); reveal_strlit("release_date"); }
}

#[verifier::spinoff_prover]
proof fn lemma_name_expiration_date(r: ImageIptc, v: String)
    ensures
        iptc_with(r, "expiration_date"@, v) == (ImageIptc { expiration_date: Some(v), ..r }),
        iptc_value(r, "expiration_date"@) == opt_view(r.expiration_date),
{
    lemma_field_name_lengths();
}

#[verifier::spinoff_prover]
proof fn lemma_name_expiration_time(r: ImageIptc, v: String)
    ensures
        iptc_with(r, "expiration_time"@, v) == (ImageIptc { expiration_time: Some(v), ..r }),
        iptc_value(r, "expiration_time"@) == opt_view(r.expiration_time),
{
    lemma_field_name_lengths();
    assert("expiration_time"@[11] != "expiration_date"@[11]) by { reveal_strlit("expiration_time"); reveal_strlit("expiration_date"); }
}

#[verifier::spinoff_prover]
proof fn lemma_name_special_instructions(r: ImageIptc, v: String)
    ensures
        iptc_with(r, "special_instructions"@, v) == (ImageIptc { special_instructions: Some(v), ..r }),
        iptc_value(r, "special_instructions"@) == opt_view(r.special_instructions),
{
    lemma_field_name_lengths();
}

#[verifier::spinoff_prover]
proof fn lemma_name_action_advised(r: ImageIptc, v: String)
    ensures
        iptc_with(r, "action_advised"@, v) == (ImageIptc { action_advised: Some(v), ..r }),
        iptc_value(r, "action_advised"@) == opt_view(r.action_advised),
{
    lemma_field_name_lengths();
    assert("action_advised"@[0] != "record_version"@[0]) by { reveal_strlit("action_advised"); reveal_strlit("record_version"); }
}

#[verifier::spinoff_prover]
proof fn lemma_name_reference_service(r: ImageIptc, v: String)
    ensures
        iptc_with(r, "reference_service"@, v) == (ImageIptc { reference_service: Some(v), ..r }),
        iptc_value(r, "reference_service"@) == opt_view(r.reference_service),
{
    lemma_field_name_lengths();
    assert("reference_service"@[0] != "subject_reference"@[0]) by { reveal_strlit("reference_service"); reveal_strlit("subject_reference"); }
}

#[verifier::spinoff_prover]
proof fn lemma_name_reference_date(r: ImageIptc, v: String)
    ensures
        iptc_with(r, "reference_date"@, v) == (ImageIptc { reference_date: Some(v), ..r }),
        iptc_value(r, "reference_date"@) == opt_view(r.reference_date),
{
    lemma_field_name_lengths();
    assert("reference_date"@[2] != "record_version"@[2]) by { reveal_strlit("reference_date"); reveal_strlit("record_version"); }
    assert("reference_date"@[0] != "action_advised"@[0]) by { reveal_strlit("reference_date"); reveal_strlit("action_advised"); }
}

#[verifier::spinoff_prover]
proof fn lemma_name_reference_number(r: ImageIptc, v: String)
    ensures
        iptc_with(r, "reference_number"@, v) == (ImageIptc { reference_number: Some(v), ..r }),
        iptc_value(r, "reference_number"@) == opt_view(r.reference_number),
{
    lemma_field_name_lengths();
    assert("reference_number"@[0] != "editorial_update"@[0]) by { reveal_strlit("reference_number"); reveal_strlit("editorial_update"); }
}

#[verifier::spinoff_prover]
proof fn lemma_name_date_created(r: ImageIptc, v: String)
    ensures
        iptc_with(r, "date_created"@, v) == (ImageIptc { date_created: Some(v), ..r }),
        iptc_value(r, "date_created"@) == opt_view(r.date_created),
{
    lemma_field_name_lengths();
    assert("date_created"@[0] != "release_date"@[0]) by { reveal_strlit("date_created"); reveal_strlit("release_date"); }
    assert("date_created"@[0] != "release_time"@[0]) by { reveal_strlit("date_created"); reveal_strlit("release_time"); }
}

#[verifier::spinoff_prover]
proof fn lemma_name_time_created(r: ImageIptc, v: String)
    ensures
        iptc_with(r, "time_created"@, v) == (ImageIptc { time_created: Some(v), ..r }),
        iptc_value(r, "time_created"@) == opt_view(r.time_created),
{
    lemma_field_name_lengths();
    assert("time_created"@[0] != "release_date"@[0]) by { reveal_strlit("time_created"); reveal_strlit("release_date"); }
    assert("time_created"@[0] != "release_time"@[0]) by { reveal_strlit("time_created"); reveal_strlit("release_time"); }
    assert("time_created"@[0] != "date_created"@[0]) by { reveal_strlit("time_created"); reveal_strlit("date_created"); }
}

#[verifier::spinoff_prover]
proof fn lemma_name_digital_date_created(r: ImageIptc, v: String)
    ensures
        iptc_with(r, "digital_date_created"@, v) == (ImageIptc { digital_date_created: Some(v), ..r }),
        iptc_value(r, "digital_date_created"@) == opt_view(r.digital_date_created),
{
    lemma_field_name_lengths();
    assert("digital_date_created"@[0] != "special_instructions"@[0]) by { reveal_strlit("digital_date_created"); reveal_strlit("special_instructions"); }
}

#[verifier::spinoff_prover]
proof fn lemma_name_digital_time_created(r: ImageIptc, v: String)
    ensures
        iptc_with(r, "digital_time_created"@, v) == (ImageIptc { digital_time_created: Some(v), ..r }),
        iptc_value(r, "digital_time_created"@) == opt_view(r.digital_time_created),
{
    lemma_field_name_lengths();
    assert("digital_time_created"@[0] != "special_instructions"@[0]) by { reveal_strlit("digital_time_created"); reveal_strlit("special_instructions"); }
    assert("digital_time_created"@[8] != "digital_date_created"@[8]) by { reveal_strlit("digital_time_created"); reveal_strlit("digital_date_created"); }
}

#[verifier::spinoff_prover]
proof fn lemma_name_originating_program(r: ImageIptc, v: String)
    ensures
        iptc_with(r, "originating_program"@, v) == (ImageIptc { originating_program: Some(v), ..r }),
        iptc_value(r, "originating_program"@) == opt_view(r.originating_program),
{
    lemma_field_name_lengths();
    assert("originating_program"@[0] != "coded_character_set"@[0]) by { reveal_strlit("originating_program"); reveal_strlit("coded_character_set"); }
}

#[verifier::spinoff_prover]
proof fn lemma_name_program_version(r: ImageIptc, v: String)
    ensures
        iptc_with(r, "program_version"@, v) == (ImageIptc { program_version: Some(v), ..r }),
        iptc_value(r, "program_version"@) == opt_view(r.program_version),
{
    lemma_field_name_lengths();
    assert("program_version"@[0] != "expiration_date"@[0]) by { reveal_strlit("program_version"); reveal_strlit("expiration_date"); }
    assert("program_version"@[0] != "expiration_time"@[0]) by { reveal_strlit("program_version"); reveal_strlit("expiration_time"); }
}

#[verifier::spinoff_prover]
proof fn lemma_name_object_cycle(r: ImageIptc, v: String)
    ensures
        iptc_with(r, "object_cycle"@, v) == (ImageIptc { object_cycle: Some(v), ..r }),
        iptc_value(r, "object_cycle"@) == opt_view(r.object_cycle),
{
    lemma_field_name_lengths();
    assert("object_cycle"@[0] != "release_date"@[0]) by { reveal_strlit("object_cycle"); reveal_strlit("release_date"); }
    assert("object_cycle"@[0] != "release_time"@[0]) by { reveal_strlit("object_cycle"); reveal_strlit("release_time"); }
    assert("object_cycle"@[0] != "date_created"@[0]) by { reveal_strlit("object_cycle"); reveal_strlit("date_created"); }
    assert("object_cycle"@[0] != "time_created"@[0]) by { reveal_strlit("object_cycle"); reveal_strlit("time_created"); }
}

#[verifier::spinoff_prover]
proof fn lemma_name_by_line(r: ImageIptc, v: String)
    ensures
        iptc_with(r, "by_line"@, v) == (ImageIptc { by_line: Some(v), ..r }),
        iptc_value(r, "by_line"@) == opt_view(r.by_line),
{
    lemma_field_name_lengths();
    assert("by_line"@[0] != "urgency"@[0]) by { reveal_strlit("by_line"); reveal_strlit("urgency"); }
}

#[verifier::spinoff_prover]
proof fn lemma_name_by_line_title(r: ImageIptc, v: String)
    ensures
        iptc_with(r, "by_line_title"@, v) == (ImageIptc { by_line_title: Some(v), ..r }),
        iptc_value(r, "by_line_title"@) == opt_view(r.by_line_title),
{
    lemma_field_name_lengths();
    assert("by_line_title"@[0] != "model_version"@[0]) by { reveal_strlit("by_line_title"); reveal_strlit("model_version"); }
}

#[verifier::spinoff_prover]
proof fn lemma_name_city(r: ImageIptc, v: String)
    ensures
        iptc_with(r, "city"@, v) == (ImageIptc { city: Some(v), ..r }),
        iptc_value(r, "city"@) == opt_view(r.city),
{
    lemma_field_name_lengths();
}

#[verifier::spinoff_prover]
proof fn lemma_name_sub_location(r: ImageIptc, v: String)
    ensures
        iptc_with(r, "sub_location"@, v) == (ImageIptc { sub_location: Some(v), ..r }),
        iptc_value(r, "sub_location"@) == opt_view(r.sub_location),
{
    lemma_field_name_lengths();
    assert("sub_location"@[0] != "release_date"@[0]) by { reveal_strlit("sub_location"); reveal_strlit("release_date"); }
    assert("sub_location"@[0] != "release_time"@[0]) by { reveal_strlit("sub_location"); reveal_strlit("release_time"); }
    assert("sub_location"@[0] != "date_created"@[0]) by { reveal_strlit("sub_location"); reveal_strlit("date_created"); }
    assert("sub_location"@[0] != "time_created"@[0]) by { reveal_strlit("sub_location"); reveal_strlit("time_created"); }
    assert("sub_location"@[0] != "object_cycle"@[0]) by { reveal_strlit("sub_location"); reveal_strlit("object_cycle"); }
}

#[verifier::spinoff_prover]
proof fn lemma_name_province_or_state(r: ImageIptc, v: String)
    ensures
        iptc_with(r, "province_or_state"@, v) == (ImageIptc { province_or_state: Some(v), ..r }),
        iptc_value(r, "province_or_state"@) == opt_view(r.province_or_state),
{
    lemma_field_name_lengths();
    assert("province_or_state"@[0] != "subject_reference"@[0]) by { reveal_strlit("province_or_state"); reveal_strlit("subject_reference"); }
    assert("province_or_state"@[0] != "reference_service"@[0]) by { reveal_strlit("province_or_state"); reveal_strlit("reference_service"); }
}

#[verifier::spinoff_prover]
proof fn lemma_name_country_or_primary_location_code(r: ImageIptc, v: String)
    ensures
        iptc_with(r, "country_or_primary_location_code"@, v) == (ImageIptc { country_or_primary_location_code: Some(v), ..r }),
        iptc_value(r, "country_or_primary_location_code"@) == opt_view(r.country_or_primary_location_code),
{
    lemma_field_name_lengths();
}

#[verifier::spinoff_prover]
proof fn lemma_name_country_or_primary_location_name(r: ImageIptc, v: String)
    ensures
        iptc_with(r, "country_or_primary_location_name"@, v) == (ImageIptc { country_or_primary_location_name: Some(v), ..r }),
        iptc_value(r, "country_or_primary_location_name"@) == opt_view(r.country_or_primary_location_name),
{
    lemma_field_name_lengths();
    assert("country_or_primary_location_name"@[28] != "country_or_primary_location_code"@[28]) by { reveal_strlit("country_or_primary_location_name"); reveal_strlit("country_or_primary_location_code"); }
}

#[verifier::spinoff_prover]
proof fn lemma_name_original_transmission_reference(r: ImageIptc, v: String)
    ensures
        iptc_with(r, "original_transmission_reference"@, v) == (ImageIptc { original_transmission_reference: Some(v), ..r }),
        iptc_value(r, "original_transmission_reference"@) == opt_view(r.original_transmission_reference),
{
    lemma_field_name_lengths();
}

#[verifier::spinoff_prover]
proof fn lemma_name_headline(r: ImageIptc, v: String)
    ensures
        iptc_with(r, "headline"@, v) == (ImageIptc { headline: Some(v), ..r }),
        iptc_value(r, "headline"@) == opt_view(r.headline),
{
    lemma_field_name_lengths();
    assert("headline"@[0] != "category"@[0]) by { reveal_strlit("headline"); reveal_strlit("category"); }
    assert("headline"@[0] != "keywords"@[0]) by { reveal_strlit("headline"); reveal_strlit("keywords"); }
}

#[verifier::spinoff_prover]
proof fn lemma_name_credit(r: ImageIptc, v: String)
    ensures
        iptc_with(r, "credit"@, v) == (ImageIptc { credit: Some(v), ..r }),
        iptc_value(r, "credit"@) == opt_view(r.credit),
{
    lemma_field_name_lengths();
}

#[verifier::spinoff_prover]
proof fn lemma_name_source(r: ImageIptc, v: String)
    ensures
        iptc_with(r, "source"@, v) == (ImageIptc { source: Some(v), ..r }),
        iptc_value(r, "source"@) == opt_view(r.source),
{
    lemma_field_name_lengths();
    assert("source"@[0] != "credit"@[0]) by { reveal_strlit("source"); reveal_strlit("credit"); }
}

#[verifier::spinoff_prover]
proof fn lemma_name_copyright_notice(r: ImageIptc, v: String)
    ensures
        iptc_with(r, "copyright_notice"@, v) == (ImageIptc { copyright_notice: Some(v), ..r }),
        iptc_value(r, "copyright_notice"@) == opt_view(r.copyright_notice),
{
    lemma_field_name_lengths();
    assert("copyright_notice"@[0] != "editorial_update"@[0]) by { reveal_strlit("copyright_notice"); reveal_strlit("editorial_update"); }
    assert("copyright_notice"@[0] != "reference_number"@[0]) by { reveal_strlit("copyright_notice"); reveal_strlit("reference_number"); }
}

#[verifier::spinoff_prover]
proof fn lemma_name_contact(r: ImageIptc, v: String)
    ensures
        iptc_with(r, "contact"@, v) == (ImageIptc { contact: Some(v), ..r }),
        iptc_value(r, "contact"@) == opt_view(r.contact),
{
    lemma_field_name_lengths();
    assert("contact"@[0] != "urgency"@[0]) by { reveal_strlit("contact"); reveal_strlit("urgency"); }
    assert("contact"@[0] != "by_line"@[0]) by { reveal_strlit("contact"); reveal_strlit("by_line"); }
}

#[verifier::spinoff_prover]
proof fn lemma_name_caption(r: ImageIptc, v: String)
    ensures
        iptc_with(r, "caption"@, v) == (ImageIptc { caption: Some(v), ..r }),
        iptc_value(r, "caption"@) == opt_view(r.caption),
{
    lemma_field_name_lengths();
    assert("caption"@[0] != "urgency"@[0]) by { reveal_strlit("caption"); reveal_strlit("urgency"); }
    assert("caption"@[0] != "by_line"@[0]) by { reveal_strlit("caption"); reveal_strlit("by_line"); }
    assert("caption"@[1] != "contact"@[1]) by { reveal_strlit("caption"); reveal_strlit("contact"); }
}

#[verifier::spinoff_prover]
proof fn lemma_name_local_caption(r: ImageIptc, v: String)
    ensures
        iptc_with(r, "local_caption"@, v) == (ImageIptc { local_caption: Some(v), ..r }),
        iptc_value(r, "local_caption"@) == opt_view(r.local_caption),
{
    lemma_field_name_lengths();
    assert("local_caption"@[0] != "model_version"@[0]) by { reveal_strlit("local_caption"); reveal_strlit("model_version"); }
    assert("local_caption"@[0] != "by_line_title"@[0]) by { reveal_strlit("local_caption"); reveal_strlit("by_line_title"); }
}

#[verifier::spinoff_prover]
proof fn lemma_name_caption_writer(r: ImageIptc, v: String)
    ensures
        iptc_with(r, "caption_writer"@, v) == (ImageIptc { caption_writer: Some(v), ..r }),
        iptc_value(r, "caption_writer"@) == opt_view(r.caption_writer),
{
    lemma_field_name_lengths();
    assert("caption_writer"@[0] != "record_version"@[0]) by { reveal_strlit("caption_writer"); reveal_strlit("record_version"); }
    assert("caption_writer"@[0] != "action_advised"@[0]) by { reveal_strlit("caption_writer"); reveal_strlit("action_advised"); }
    assert("caption_writer"@[0] != "reference_date"@[0]) by { reveal_strlit("caption_writer"); reveal_strlit("reference_date"); }
}

#[verifier::spinoff_prover]
proof fn lemma_name_rasterized_caption(r: ImageIptc, v: String)
    ensures
        iptc_with(r, "rasterized_caption"@, v) == (ImageIptc { rasterized_caption: Some(v), ..r }),
        iptc_value(r, "rasterized_caption"@) == opt_view(r.rasterized_caption),
{
    lemma_field_name_lengths();
}

#[verifier::spinoff_prover]
proof fn lemma_name_image_type(r: ImageIptc, v: String)
    ensures
        iptc_with(r, "image_type"@, v) == (ImageIptc { image_type: Some(v), ..r }),
        iptc_value(r, "image_type"@) == opt_view(r.image_type),
{
    lemma_field_name_lengths();
    assert("image_type"@[6] != "image_path"@[6]) by { reveal_strlit("image_type"); reveal_strlit("image_path"); }
    assert("image_type"@[0] != "fixture_id"@[0]) by { reveal_strlit("image_type"); reveal_strlit("fixture_id"); }
}

#[verifier::spinoff_prover]
proof fn lemma_name_image_orientation(r: ImageIptc, v: String)
    ensures
        iptc_with(r, "image_orientation"@, v) == (ImageIptc { image_orientation: Some(v), ..r }),
        iptc_value(r, "image_orientation"@) == opt_view(r.image_orientation),
{
    lemma_field_name_lengths();
    assert("image_orientation"@[0] != "subject_reference"@[0]) by { reveal_strlit("image_orientation"); reveal_strlit("subject_reference"); }
    assert("image_orientation"@[0] != "reference_service"@[0]) by { reveal_strlit("image_orientation"); reveal_strlit("reference_service"); }
    assert("image_orientation"@[0] != "province_or_state"@[0]) by { reveal_strlit("image_orientation"); reveal_strlit("province_or_state"); }
}

#[verifier::spinoff_prover]
proof fn lemma_name_language_identifier(r: ImageIptc, v: String)
    ensures
        iptc_with(r, "language_identifier"@, v) == (ImageIptc { language_identifier: Some(v), ..r }),
        iptc_value(r, "language_identifier"@) == opt_view(r.language_identifier),
{
    lemma_field_name_lengths();
    assert("language_identifier"@[0] != "coded_character_set"@[0]) by { reveal_strlit("language_identifier"); reveal_strlit("coded_character_set"); }
    assert("language_identifier"@[0] != "originating_program"@[0]) by { reveal_strlit("language_identifier"); reveal_strlit("originating_program"); }
}

#[verifier::spinoff_prover]
proof fn lemma_name_audio_type(r: ImageIptc, v: String)
    ensures
        iptc_with(r, "audio_type"@, v) == (ImageIptc { audio_type: Some(v), ..r }),
        iptc_value(r, "audio_type"@) == opt_view(r.audio_type),
{
    lemma_field_name_lengths();
    assert("audio_type"@[0] != "image_path"@[0]) by { reveal_strlit("audio_type"); reveal_strlit("image_path"); }
    assert("audio_type"@[0] != "fixture_id"@[0]) by { reveal_strlit("audio_type"); reveal_strlit("fixture_id"); }
    assert("audio_type"@[0] != "image_type"@[0]) by { reveal_strlit("audio_type"); reveal_strlit("image_type"); }
}

#[verifier::spinoff_prover]
proof fn lemma_name_audio_sampling_rate(r: ImageIptc, v: String)
    ensures
        iptc_with(r, "audio_sampling_rate"@, v) == (ImageIptc { audio_sampling_rate: Some(v), ..r }),
        iptc_value(r, "audio_sampling_rate"@) == opt_view(r.audio_sampling_rate),
{
    lemma_field_name_lengths();
    assert("audio_sampling_rate"@[0] != "coded_character_set"@[0]) by { reveal_strlit("audio_sampling_rate"); reveal_strlit("coded_character_set"); }
    assert("audio_sampling_rate"@[0] != "originating_program"@[0]) by { reveal_strlit("audio_sampling_rate"); reveal_strlit("originating_program"); }
    assert("audio_sampling_rate"@[0] != "language_identifier"@[0]) by { reveal_strlit("audio_sampling_rate"); reveal_strlit("language_identifier"); }
}

#[verifier::spinoff_prover]
proof fn lemma_name_audio_sampling_resolution(r: ImageIptc, v: String)
    ensures
        iptc_with(r, "audio_sampling_resolution"@, v) == (ImageIptc { audio_sampling_resolution: Some(v), ..r }),
        iptc_value(r, "audio_sampling_resolution"@) == opt_view(r.audio_sampling_resolution),
{
    lemma_field_name_lengths();
}

#[verifier::spinoff_prover]
proof fn lemma_name_audio_duration(r: ImageIptc, v: String)
    ensures
        iptc_with(r, "audio_duration"@, v) == (ImageIptc { audio_duration: Some(v), ..r }),
        iptc_value(r, "audio_duration"@) == opt_view(r.audio_duration),
{
    lemma_field_name_lengths();
    assert("audio_duration"@[0] != "record_version"@[0]) by { reveal_strlit("audio_duration"); reveal_strlit("record_version"); }
    assert("audio_duration"@[1] != "action_advised"@[1]) by { reveal_strlit("audio_duration"); reveal_strlit("action_advised"); }
    assert("audio_duration"@[0] != "reference_date"@[0]) by { reveal_strlit("audio_duration"); reveal_strlit("reference_date"); }
    assert("audio_duration"@[0] != "caption_writer"@[0]) by { reveal_strlit("audio_duration"); reveal_strlit("caption_writer"); }
}

#[verifier::spinoff_prover]
proof fn lemma_name_audio_outcue(r: ImageIptc, v: String)
    ensures
        iptc_with(r, "audio_outcue"@, v) == (ImageIptc { audio_outcue: Some(v), ..r }),
        iptc_value(r, "audio_outcue"@) == opt_view(r.audio_outcue),
{
    lemma_field_name_lengths();
    assert("audio_outcue"@[0] != "release_date"@[0]) by { reveal_strlit("audio_outcue"); reveal_strlit("release_date"); }
    assert("audio_outcue"@[0] != "release_time"@[0]) by { reveal_strlit("audio_outcue"); reveal_strlit("release_time"); }
    assert("audio_outcue"@[0] != "date_created"@[0]) by { reveal_strlit("audio_outcue"); reveal_strlit("date_created"); }
    assert("audio_outcue"@[0] != "time_created"@[0]) by { reveal_strlit("audio_outcue"); reveal_strlit("time_created"); }
    assert("audio_outcue"@[0] != "object_cycle"@[0]) by { reveal_strlit("audio_outcue"); reveal_strlit("object_cycle"); }
    assert("audio_outcue"@[0] != "sub_location"@[0]) by { reveal_strlit("audio_outcue"); reveal_strlit("sub_location"); }
}

#[verifier::spinoff_prover]
proof fn lemma_name_job_id(r: ImageIptc, v: String)
    ensures
        iptc_with(r, "job_id"@, v) == (ImageIptc { job_id: Some(v), ..r }),
        iptc_value(r, "job_id"@) == opt_view(r.job_id),
{
    lemma_field_name_lengths();
    assert("job_id"@[0] != "credit"@[0]) by { reveal_strlit("job_id"); reveal_strlit("credit"); }
    assert("job_id"@[0] != "source"@[0]) by { reveal_strlit("job_id"); reveal_strlit("source"); }
}

#[verifier::spinoff_prover]
proof fn lemma_name_master_document_id(r: ImageIptc, v: String)
    ensures
        iptc_with(r, "master_document_id"@, v) == (ImageIptc { master_document_id: Some(v), ..r }),
        iptc_value(r, "master_document_id"@) == opt_view(r.master_document_id),
{
    lemma_field_name_lengths();
    assert("master_document_id"@[0] != "rasterized_caption"@[0]) by { reveal_strlit("master_document_id"); reveal_strlit("rasterized_caption"); }
}

#[verifier::spinoff_prover]
proof fn lemma_name_short_document_id(r: ImageIptc, v: String)
    ensures
        iptc_with(r, "short_document_id"@, v) == (ImageIptc { short_document_id: Some(v), ..r }),
        iptc_value(r, "short_document_id"@) == opt_view(r.short_document_id),
{
    lemma_field_name_lengths();
    assert("short_document_id"@[1] != "subject_reference"@[1]) by { reveal_strlit("short_document_id"); reveal_strlit("subject_reference"); }
    assert("short_document_id"@[0] != "reference_service"@[0]) by { reveal_strlit("short_document_id"); reveal_strlit("reference_service"); }
    assert("short_document_id"@[0] != "province_or_state"@[0]) by { reveal_strlit("short_document_id"); reveal_strlit("province_or_state"); }
    assert("short_document_id"@[0] != "image_orientation"@[0]) by { reveal_strlit("short_document_id"); reveal_strlit("image_orientation"); }
}

#[verifier::spinoff_prover]
proof fn lemma_name_unique_document_id(r: ImageIptc, v: String)
    ensures
        iptc_with(r, "unique_document_id"@, v) == (ImageIptc { unique_document_id: Some(v), ..r }),
        iptc_value(r, "unique_document_id"@) == opt_view(r.unique_document_id),
{
    lemma_field_name_lengths();
    assert("unique_document_id"@[0] != "rasterized_caption"@[0]) by { reveal_strlit("unique_document_id"); reveal_strlit("rasterized_caption"); }
    assert("unique_document_id"@[0] != "master_document_id"@[0]) by { reveal_strlit("unique_document_id"); reveal_strlit("master_document_id"); }
}

#[verifier::spinoff_prover]
proof fn lemma_name_owner_id(r: ImageIptc, v: String)
    ensures
        iptc_with(r, "owner_id"@, v) == (ImageIptc { owner_id: Some(v), ..r }),
        iptc_value(r, "owner_id"@) == opt_view(r.owner_id),
{
    lemma_field_name_lengths();
    assert("owner_id"@[0] != "category"@[0]) by { reveal_strlit("owner_id"); reveal_strlit("category"); }
    assert("owner_id"@[0] != "keywords"@[0]) by { reveal_strlit("owner_id"); reveal_strlit("keywords"); }
    assert("owner_id"@[0] != "headline"@[0]) by { reveal_strlit("owner_id"); reveal_strlit("headline"); }
}

/// Writing a field by its name sets the member of that name, and only it; reading a
/// field by its name gives that member (the members from `image_path` to `keywords`).
pub proof fn lemma_iptc_names_1(r: ImageIptc, v: String)
    ensures
        iptc_with(r, "image_path"@, v) == (ImageIptc { image_path: v, ..r }),
        iptc_value(r, "image_path"@) == Some(r.image_path@),
        iptc_with(r, "model_version"@, v) == (ImageIptc { model_version: Some(v), ..r }),
        iptc_value(r, "model_version"@) == opt_view(r.model_version),
        iptc_with(r, "date_sent"@, v) == (ImageIptc { date_sent: Some(v), ..r }),
        iptc_value(r, "date_sent"@) == opt_view(r.date_sent),
        iptc_with(r, "time_sent"@, v) == (ImageIptc { time_sent: Some(v), ..r }),
        iptc_value(r, "time_sent"@) == opt_view(r.time_sent),
        iptc_with(r, "coded_character_set"@, v) == (ImageIptc { coded_character_set: Some(v), ..r }),
        iptc_value(r, "coded_character_set"@) == opt_view(r.coded_character_set),
        iptc_with(r, "record_version"@, v) == (ImageIptc { record_version: Some(v), ..r }),
        iptc_value(r, "record_version"@) == opt_view(r.record_version),
        iptc_with(r, "object_type_reference"@, v) == (ImageIptc { object_type_reference: Some(v), ..r }),
        iptc_value(r, "object_type_reference"@) == opt_view(r.object_type_reference),
        iptc_with(r, "object_attribute_reference"@, v) == (ImageIptc { object_attribute_reference: Some(v), ..r }),
        iptc_value(r, "object_attribute_reference"@) == opt_view(r.object_attribute_reference),
        iptc_with(r, "object_name"@, v) == (ImageIptc { object_name: Some(v), ..r }),
        iptc_value(r, "object_name"@) == opt_view(r.object_name),
        iptc_with(r, "edit_status"@, v) == (ImageIptc { edit_status: Some(v), ..r }),
        iptc_value(r, "edit_status"@) == opt_view(r.edit_status),
        iptc_with(r, "editorial_update"@, v) == (ImageIptc { editorial_update: Some(v), ..r }),
        iptc_value(r, "editorial_update"@) == opt_view(r.editorial_update),
        iptc_with(r, "urgency"@, v) == (ImageIptc { urgency: Some(v), ..r }),
        iptc_value(r, "urgency"@) == opt_view(r.urgency),
        iptc_with(r, "subject_reference"@, v) == (ImageIptc { subject_reference: Some(v), ..r }),
        iptc_value(r, "subject_reference"@) == opt_view(r.subject_reference),
        iptc_with(r, "category"@, v) == (ImageIptc { category: Some(v), ..r }),
        iptc_value(r, "category"@) == opt_view(r.category),
        iptc_with(r, "supplemental_categories"@, v) == (ImageIptc { supplemental_categories: Some(v), ..r }),
        iptc_value(r, "supplemental_categories"@) == opt_view(r.supplemental_categories),
        iptc_with(r, "fixture_id"@, v) == (ImageIptc { fixture_id: Some(v), ..r }),
        iptc_value(r, "fixture_id"@) == opt_view(r.fixture_id),
        iptc_with(r, "keywords"@, v) == (ImageIptc { keywords: Some(v), ..r }),
        iptc_value(r, "keywords"@) == opt_view(r.keywords),
{
    lemma_name_image_path(r, v);
    lemma_name_model_version(r, v);
    lemma_name_date_sent(r, v);
    lemma_name_time_sent(r, v);
    lemma_name_coded_character_set(r, v);
    lemma_name_record_version(r, v);
    lemma_name_object_type_reference(r, v);
    lemma_name_object_attribute_reference(r, v);
    lemma_name_object_name(r, v);
    lemma_name_edit_status(r, v);
    lemma_name_editorial_update(r, v);
    lemma_name_urgency(r, v);
    lemma_name_subject_reference(r, v);
    lemma_name_category(r, v);
    lemma_name_supplemental_categories(r, v);
    lemma_name_fixture_id(r, v);
    lemma_name_keywords(r, v);
}

/// Writing a field by its name sets the member of that name, and only it; reading a
/// field by its name gives that member (the members from `content_location_code` to `originating_program`).
pub proof fn lemma_iptc_names_2(r: ImageIptc, v: String)
    ensures
        iptc_with(r, "content_location_code"@, v) == (ImageIptc { content_location_code: Some(v), ..r }),
        iptc_value(r, "content_location_code"@) == opt_view(r.content_location_code),
        iptc_with(r, "content_location_name"@, v) == (ImageIptc { content_location_name: Some(v), ..r }),
        iptc_value(r, "content_location_name"@) == opt_view(r.content_location_name),
        iptc_with(r, "release_date"@, v) == (ImageIptc { release_date: Some(v), ..r }),
        iptc_value(r, "release_date"@) == opt_view(r.release_date),
        iptc_with(r, "release_time"@, v) == (ImageIptc { release_time: Some(v), ..r }),
        iptc_value(r, "release_time"@) == opt_view(r.release_time),
        iptc_with(r, "expiration_date"@, v) == (ImageIptc { expiration_date: Some(v), ..r }),
        iptc_value(r, "expiration_date"@) == opt_view(r.expiration_date),
        iptc_with(r, "expiration_time"@, v) == (ImageIptc { expiration_time: Some(v), ..r }),
        iptc_value(r, "expiration_time"@) == opt_view(r.expiration_time),
        iptc_with(r, "special_instructions"@, v) == (ImageIptc { special_instructions: Some(v), ..r }),
        iptc_value(r, "special_instructions"@) == opt_view(r.special_instructions),
        iptc_with(r, "action_advised"@, v) == (ImageIptc { action_advised: Some(v), ..r }),
        iptc_value(r, "action_advised"@) == opt_view(r.action_advised),
        iptc_with(r, "reference_service"@, v) == (ImageIptc { reference_service: Some(v), ..r }),
        iptc_value(r, "reference_service"@) == opt_view(r.reference_service),
        iptc_with(r, "reference_date"@, v) == (ImageIptc { reference_date: Some(v), ..r }),
        iptc_value(r, "reference_date"@) == opt_view(r.reference_date),
        iptc_with(r, "reference_number"@, v) == (ImageIptc { reference_number: Some(v), ..r }),
        iptc_value(r, "reference_number"@) == opt_view(r.reference_number),
        iptc_with(r, "date_created"@, v) == (ImageIptc { date_created: Some(v), ..r }),
        iptc_value(r, "date_created"@) == opt_view(r.date_created),
        iptc_with(r, "time_created"@, v) == (ImageIptc { time_created: Some(v), ..r }),
        iptc_value(r, "time_created"@) == opt_view(r.time_created),
        iptc_with(r, "digital_date_created"@, v) == (ImageIptc { digital_date_created: Some(v), ..r }),
        iptc_value(r, "digital_date_created"@) == opt_view(r.digital_date_created),
        iptc_with(r, "digital_time_created"@, v) == (ImageIptc { digital_time_created: Some(v), ..r }),
        iptc_value(r, "digital_time_created"@) == opt_view(r.digital_time_created),
        iptc_with(r, "originating_program"@, v) == (ImageIptc { originating_program: Some(v), ..r }),
        iptc_value(r, "originating_program"@) == opt_view(r.originating_program),
{
    lemma_name_content_location_code(r, v);
    lemma_name_content_location_name(r, v);
    lemma_name_release_date(r, v);
    lemma_name_release_time(r, v);
    lemma_name_expiration_date(r, v);
    lemma_name_expiration_time(r, v);
    lemma_name_special_instructions(r, v);
    lemma_name_action_advised(r, v);
    lemma_name_reference_service(r, v);
    lemma_name_reference_date(r, v);
    lemma_name_reference_number(r, v);
    lemma_name_date_created(r, v);
    lemma_name_time_created(r, v);
    lemma_name_digital_date_created(r, v);
    lemma_name_digital_time_created(r, v);
    lemma_name_originating_program(r, v);
}

/// Writing a field by its name sets the member of that name, and only it; reading a
/// field by its name gives that member (the members from `program_version` to `caption`).
pub proof fn lemma_iptc_names_3(r: ImageIptc, v: String)
    ensures
        iptc_with(r, "program_version"@, v) == (ImageIptc { program_version: Some(v), ..r }),
        iptc_value(r, "program_version"@) == opt_view(r.program_version),
        iptc_with(r, "object_cycle"@, v) == (ImageIptc { object_cycle: Some(v), ..r }),
        iptc_value(r, "object_cycle"@) == opt_view(r.object_cycle),
        iptc_with(r, "by_line"@, v) == (ImageIptc { by_line: Some(v), ..r }),
        iptc_value(r, "by_line"@) == opt_view(r.by_line),
        iptc_with(r, "by_line_title"@, v) == (ImageIptc { by_line_title: Some(v), ..r }),
        iptc_value(r, "by_line_title"@) == opt_view(r.by_line_title),
        iptc_with(r, "city"@, v) == (ImageIptc { city: Some(v), ..r }),
        iptc_value(r, "city"@) == opt_view(r.city),
        iptc_with(r, "sub_location"@, v) == (ImageIptc { sub_location: Some(v), ..r }),
        iptc_value(r, "sub_location"@) == opt_view(r.sub_location),
        iptc_with(r, "province_or_state"@, v) == (ImageIptc { province_or_state: Some(v), ..r }),
        iptc_value(r, "province_or_state"@) == opt_view(r.province_or_state),
        iptc_with(r, "country_or_primary_location_code"@, v) == (ImageIptc { country_or_primary_location_code: Some(v), ..r }),
        iptc_value(r, "country_or_primary_location_code"@) == opt_view(r.country_or_primary_location_code),
        iptc_with(r, "country_or_primary_location_name"@, v) == (ImageIptc { country_or_primary_location_name: Some(v), ..r }),
        iptc_value(r, "country_or_primary_location_name"@) == opt_view(r.country_or_primary_location_name),
        iptc_with(r, "original_transmission_reference"@, v) == (ImageIptc { original_transmission_reference: Some(v), ..r }),
        iptc_value(r, "original_transmission_reference"@) == opt_view(r.original_transmission_reference),
        iptc_with(r, "headline"@, v) == (ImageIptc { headline: Some(v), ..r }),
        iptc_value(r, "headline"@) == opt_view(r.headline),
        iptc_with(r, "credit"@, v) == (ImageIptc { credit: Some(v), ..r }),
        iptc_value(r, "credit"@) == opt_view(r.credit),
        iptc_with(r, "source"@, v) == (ImageIptc { source: Some(v), ..r }),
        iptc_value(r, "source"@) == opt_view(r.source),
        iptc_with(r, "copyright_notice"@, v) == (ImageIptc { copyright_notice: Some(v), ..r }),
        iptc_value(r, "copyright_notice"@) == opt_view(r.copyright_notice),
        iptc_with(r, "contact"@, v) == (ImageIptc { contact: Some(v), ..r }),
        iptc_value(r, "contact"@) == opt_view(r.contact),
        iptc_with(r, "caption"@, v) == (ImageIptc { caption: Some(v), ..r }),
        iptc_value(r, "caption"@) == opt_view(r.caption),
{
    lemma_name_program_version(r, v);
    lemma_name_object_cycle(r, v);
    lemma_name_by_line(r, v);
    lemma_name_by_line_title(r, v);
    lemma_name_city(r, v);
    lemma_name_sub_location(r, v);
    lemma_name_province_or_state(r, v);
    lemma_name_country_or_primary_location_code(r, v);
    lemma_name_country_or_primary_location_name(r, v);
    lemma_name_original_transmission_reference(r, v);
    lemma_name_headline(r, v);
    lemma_name_credit(r, v);
    lemma_name_source(r, v);
    lemma_name_copyright_notice(r, v);
    lemma_name_contact(r, v);
    lemma_name_caption(r, v);
}

/// Writing a field by its name sets the member of that name, and only it; reading a
/// field by its name gives that member (the members from `local_caption` to `owner_id`).
pub proof fn lemma_iptc_names_4(r: ImageIptc, v: String)
    ensures
        iptc_with(r, "local_caption"@, v) == (ImageIptc { local_caption: Some(v), ..r }),
        iptc_value(r, "local_caption"@) == opt_view(r.local_caption),
        iptc_with(r, "caption_writer"@, v) == (ImageIptc { caption_writer: Some(v), ..r }),
        iptc_value(r, "caption_writer"@) == opt_view(r.caption_writer),
        iptc_with(r, "rasterized_caption"@, v) == (ImageIptc { rasterized_caption: Some(v), ..r }),
        iptc_value(r, "rasterized_caption"@) == opt_view(r.rasterized_caption),
        iptc_with(r, "image_type"@, v) == (ImageIptc { image_type: Some(v), ..r }),
        iptc_value(r, "image_type"@) == opt_view(r.image_type),
        iptc_with(r, "image_orientation"@, v) == (ImageIptc { image_orientation: Some(v), ..r }),
        iptc_value(r, "image_orientation"@) == opt_view(r.image_orientation),
        iptc_with(r, "language_identifier"@, v) == (ImageIptc { language_identifier: Some(v), ..r }),
        iptc_value(r, "language_identifier"@) == opt_view(r.language_identifier),
        iptc_with(r, "audio_type"@, v) == (ImageIptc { audio_type: Some(v), ..r }),
        iptc_value(r, "audio_type"@) == opt_view(r.audio_type),
        iptc_with(r, "audio_sampling_rate"@, v) == (ImageIptc { audio_sampling_rate: Some(v), ..r }),
        iptc_value(r, "audio_sampling_rate"@) == opt_view(r.audio_sampling_rate),
        iptc_with(r, "audio_sampling_resolution"@, v) == (ImageIptc { audio_sampling_resolution: Some(v), ..r }),
        iptc_value(r, "audio_sampling_resolution"@) == opt_view(r.audio_sampling_resolution),
        iptc_with(r, "audio_duration"@, v) == (ImageIptc { audio_duration: Some(v), ..r }),
        iptc_value(r, "audio_duration"@) == opt_view(r.audio_duration),
        iptc_with(r, "audio_outcue"@, v) == (ImageIptc { audio_outcue: Some(v), ..r }),
        iptc_value(r, "audio_outcue"@) == opt_view(r.audio_outcue),
        iptc_with(r, "job_id"@, v) == (ImageIptc { job_id: Some(v), ..r }),
        iptc_value(r, "job_id"@) == opt_view(r.job_id),
        iptc_with(r, "master_document_id"@, v) == (ImageIptc { master_document_id: Some(v), ..r }),
        iptc_value(r, "master_document_id"@) == opt_view(r.master_document_id),
        iptc_with(r, "short_document_id"@, v) == (ImageIptc { short_document_id: Some(v), ..r }),
        iptc_value(r, "short_document_id"@) == opt_view(r.short_document_id),
        iptc_with(r, "unique_document_id"@, v) == (ImageIptc { unique_document_id: Some(v), ..r }),
        iptc_value(r, "unique_document_id"@) == opt_view(r.unique_document_id),
        iptc_with(r, "owner_id"@, v) == (ImageIptc { owner_id: Some(v), ..r }),
        iptc_value(r, "owner_id"@) == opt_view(r.owner_id),
{
    lemma_name_local_caption(r, v);
    lemma_name_caption_writer(r, v);
    lemma_name_rasterized_caption(r, v);
    lemma_name_image_type(r, v);
    lemma_name_image_orientation(r, v);
    lemma_name_language_identifier(r, v);
    lemma_name_audio_type(r, v);
    lemma_name_audio_sampling_rate(r, v);
    lemma_name_audio_sampling_resolution(r, v);
    lemma_name_audio_duration(r, v);
    lemma_name_audio_outcue(r, v);
    lemma_name_job_id(r, v);
    lemma_name_master_document_id(r, v);
    lemma_name_short_document_id(r, v);
    lemma_name_unique_document_id(r, v);
    lemma_name_owner_id(r, v);
}

} // verus!

//! Remote text-processing configuration, requests, responses and
//! statistics. The network client itself lives outside this crate; the
//! types and the prompt construction are verified here.

use vstd::prelude::*;

verus! {

/// Client configuration. The generation temperature is in thousandths
/// (300 = 0.3).
#[derive(Debug, Clone)]
pub struct AIConfig {
    pub api_key: String,
    pub model: String,
    /// Generation temperature in thousandths.
    pub temperature: u32,
    pub max_tokens: u32,
    pub stream: bool,
    pub timeout_seconds: u64,
}

impl Default for AIConfig {
    /// The stock configuration: no key yet, the current flash model,
    /// mildly creative sampling, 1000 tokens, streaming on, 30 s timeout.
    fn default() -> (c: AIConfig)
        ensures
            c.api_key@ == Seq::<char>::empty(),
            c.model@ == "gemini-2.0-flash-exp"@,
            c.temperature == 300,
            c.max_tokens == 1000,
            c.stream,
            c.timeout_seconds == 30,
    {
        AIConfig {
            api_key: String::new(),
            model: String::from_str("gemini-2.0-flash-exp"),
            temperature: 300,
            max_tokens: 1000,
            stream: true,
            timeout_seconds: 30,
        }
    }
}

/// One processing request.
#[derive(Debug, Clone)]
pub struct AIRequest {
    pub text: String,
    pub instruction: AIInstruction,
    pub context: Option<String>,
}

/// What the model is asked to do with the text.
#[derive(Debug, Clone)]
pub enum AIInstruction {
    /// Fix grammar, clarity and style.
    Improve,
    /// Summarize.
    Summarize,
    /// Translate to the given language.
    Translate { target_language: String },
    /// A caller-supplied instruction.
    Custom { instruction: String },
    /// Let the model pick the most fitting action.
    Auto,
}

impl AIInstruction {
    /// Renders the instruction and the text as one prompt.
    pub fn to_prompt(&self, text: &str) -> (r: String)
        ensures
            self is Improve ==> r@
                == "Please improve the following text by fixing grammar, enhancing clarity, and improving style while preserving the original meaning:\n\n"@
                + text@,
            self is Summarize ==> r@
                == "Please provide a concise summary of the following text:\n\n"@ + text@,
            self is Translate ==> r@ == "Please translate the following text to "@
                + self->Translate_target_language@ + ":\n\n"@ + text@,
            self is Custom ==> r@ == self->Custom_instruction@ + ":\n\n"@ + text@,
            self is Auto ==> r@
                == "Please analyze the following text and perform the most appropriate action (improve, summarize, translate, or other helpful processing):\n\n"@
                + text@,
    {
        match self {
            AIInstruction::Improve => {
                String::from_str(
                    "Please improve the following text by fixing grammar, enhancing clarity, and improving style while preserving the original meaning:\n\n",
                ).concat(text)
            },
            AIInstruction::Summarize => {
                String::from_str(
                    "Please provide a concise summary of the following text:\n\n",
                ).concat(text)
            },
            AIInstruction::Translate { target_language } => {
                let mut s = String::from_str("Please translate the following text to ");
                s.append(target_language.as_str());
                s.append(":\n\n");
                s.append(text);
                s
            },
            AIInstruction::Custom { instruction } => {
                let mut s = instruction.clone();
                s.append(":\n\n");
                s.append(text);
                s
            },
            AIInstruction::Auto => {
                String::from_str(
                    "Please analyze the following text and perform the most appropriate action (improve, summarize, translate, or other helpful processing):\n\n",
                ).concat(text)
            },
        }
    }
}

/// One processing response. The confidence is on the fixed-point grid
/// (10 000 = certain).
#[derive(Debug, Clone)]
pub struct AIResponse {
    pub text: String,
    pub processing_time_ms: u64,
    pub confidence: u32,
    pub token_usage: TokenUsage,
    pub was_streamed: bool,
}

/// Token counts of one request.
#[derive(Debug, Clone, Copy, PartialEq, Eq, Structural)]
pub struct TokenUsage {
    pub prompt_tokens: u32,
    pub completion_tokens: u32,
    pub total_tokens: u32,
}

/// Client statistics.
#[derive(Debug, Clone)]
pub struct AIStats {
    pub total_requests: u64,
    /// Moving average, held exactly as
    /// `(avg * (n - 1) + t) / n` per recording.
    pub avg_processing_time_ms: u64,
    pub min_processing_time_ms: u64,
    pub max_processing_time_ms: u64,
    pub total_tokens_used: u64,
    pub current_model: String,
    pub rate_limit_remaining: Option<u32>,
    /// Timestamp of the last request, as the caller rendered it.
    pub last_request_time: Option<String>,
}

impl AIStats {
    /// Folds one request into the counters: count, minimum, maximum, the
    /// integer moving average, tokens, and the caller's timestamp.
    pub fn record(&mut self, processing_time_ms: u64, usage: &TokenUsage, timestamp: String)
        requires
            old(self).total_requests < 0xFFFF_FFFF_FFFF_FFFF,
            old(self).total_tokens_used + usage.total_tokens <= 0xFFFF_FFFF_FFFF_FFFF,
        ensures
            final(self).total_requests == old(self).total_requests + 1,
            final(self).min_processing_time_ms == if processing_time_ms < old(
                self,
            ).min_processing_time_ms {
                processing_time_ms
            } else {
                old(self).min_processing_time_ms
            },
            final(self).max_processing_time_ms == if processing_time_ms > old(
                self,
            ).max_processing_time_ms {
                processing_time_ms
            } else {
                old(self).max_processing_time_ms
            },
            final(self).avg_processing_time_ms as int == (old(self).avg_processing_time_ms as int
                * (old(self).total_requests as int) + processing_time_ms as int) / (old(
                self,
            ).total_requests as int + 1),
            final(self).total_tokens_used == old(self).total_tokens_used + usage.total_tokens,
            final(self).current_model == old(self).current_model,
            final(self).rate_limit_remaining == old(self).rate_limit_remaining,
            final(self).last_request_time == Some(timestamp),
    {
        let prior = self.total_requests;
        self.total_requests = prior + 1;
        if processing_time_ms < self.min_processing_time_ms {
            self.min_processing_time_ms = processing_time_ms;
        }
        if processing_time_ms > self.max_processing_time_ms {
            self.max_processing_time_ms = processing_time_ms;
        }
        proof {
            assert((self.avg_processing_time_ms as int) * (prior as int) <= 0xFFFF_FFFF_FFFF_FFFF
                * 0xFFFF_FFFF_FFFF_FFFF) by (nonlinear_arith)
                requires
                    0 <= self.avg_processing_time_ms <= 0xFFFF_FFFF_FFFF_FFFF,
                    0 <= prior <= 0xFFFF_FFFF_FFFF_FFFF,
            {
            }
            assert((self.avg_processing_time_ms as int) * (prior as int) + (
            processing_time_ms as int) <= ((prior as int) + 1) * 0xFFFF_FFFF_FFFF_FFFF)
                by (nonlinear_arith)
                requires
                    0 <= self.avg_processing_time_ms <= 0xFFFF_FFFF_FFFF_FFFF,
                    0 <= processing_time_ms <= 0xFFFF_FFFF_FFFF_FFFF,
                    0 <= prior,
            {
            }
            crate::math::lemma_div_bound(
                (self.avg_processing_time_ms as int) * (prior as int) + (processing_time_ms as int),
                (prior as int) + 1,
                0xFFFF_FFFF_FFFF_FFFF,
            );
        }
        let total: u128 = (self.avg_processing_time_ms as u128) * (prior as u128)
            + (processing_time_ms as u128);
        let n: u128 = (prior as u128) + 1;
        self.avg_processing_time_ms = (total / n) as u64;
        self.total_tokens_used = self.total_tokens_used + (usage.total_tokens as u64);
        self.last_request_time = Some(timestamp);
    }
}

} // verus!

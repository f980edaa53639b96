//! The swapchain's images, in the order the swapchain hands them out, and the
//! image that the next acquire and present are for.

use vstd::prelude::*;

verus! {

/// The semaphores of one swapchain image: signalled when the image is
/// acquired, and waited on before it is presented.
#[derive(Clone, Copy)]
pub struct SwapchainSemaphores {
    pub acquire: ash::vk::Semaphore,
    pub present: ash::vk::Semaphore,
}

/// One swapchain image with its view and semaphores.
#[derive(Clone, Copy)]
pub struct PerImageData {
    pub image: ash::vk::Image,
    pub view: ash::vk::ImageView,
    pub semaphores: SwapchainSemaphores,
}

/// The images of the current swapchain and the index of the image in use.
pub struct SwapchainImages {
    image_data: Vec<PerImageData>,
    current_image: u32,
}

impl SwapchainImages {
    /// The images, in swapchain order.
    pub closed spec fn images(&self) -> Seq<PerImageData> {
        self.image_data@
    }

    /// The index of the image that the next acquire and present are for.
    pub closed spec fn current(&self) -> u32 {
        self.current_image
    }

    /// No images yet; the first image to be used is image 0.
    pub fn new() -> (r: Self)
        ensures
            r.images().len() == 0,
            r.current() == 0,
    {
        SwapchainImages { image_data: Vec::new(), current_image: 0 }
    }

    /// Adds the next image of a freshly created swapchain.
    pub fn push_image(&mut self, data: PerImageData)
        ensures
            final(self).images() == old(self).images().push(data),
            final(self).current() == old(self).current(),
    {
        self.image_data.push(data);
    }

    /// Takes out all images (their views and semaphores are the caller's to
    /// destroy). The index of the current image is kept.
    pub fn drain(&mut self) -> (r: Vec<PerImageData>)
        ensures
            r@ == old(self).images(),
            final(self).images().len() == 0,
            final(self).current() == old(self).current(),
    {
        let mut taken: Vec<PerImageData> = Vec::new();
        std::mem::swap(&mut taken, &mut self.image_data);
        taken
    }

    /// The number of images.
    pub fn image_count(&self) -> (r: usize)
        ensures
            r == self.images().len(),
    {
        self.image_data.len()
    }

    /// The index of the image in use.
    pub fn current_index(&self) -> (r: u32)
        ensures
            r == self.current(),
    {
        self.current_image
    }

    /// The image in use: the one whose acquire semaphore the next acquire
    /// signals and whose present semaphore the next present waits on.
    pub fn current_data(&self) -> (r: PerImageData)
        requires
            self.current() < self.images().len(),
        ensures
            r == self.images()[self.current() as int],
    {
        self.image_data[self.current_image as usize]
    }

    /// Checks the index that the swapchain acquired against the image in use,
    /// and hands out that image's view and semaphores when they agree.
    pub fn acquired(&self, index: u32) -> (r: Option<(ash::vk::ImageView, SwapchainSemaphores)>)
        requires
            self.current() < self.images().len(),
        ensures
            index == self.current() ==> r == Some(
                (
                    self.images()[self.current() as int].view,
                    self.images()[self.current() as int].semaphores,
                ),
            ),
            index != self.current() ==> r is None,
    {
        let data = &self.image_data[self.current_image as usize];
        if index == self.current_image {
            Some((data.view, data.semaphores))
        } else {
            None
        }
    }

    /// After a present, moves on to the next image, wrapping around after
    /// the last one.
    pub fn advance(&mut self)
        requires
            old(self).current() < old(self).images().len() <= u32::MAX,
        ensures
            final(self).images() == old(self).images(),
            final(self).current() == (old(self).current() + 1) % (old(self).images().len() as int),
            final(self).current() < final(self).images().len(),
    {
        let image_count: u32 = self.image_data.len() as u32;
        self.current_image = (self.current_image + 1) % image_count;
    }
}

/// Successive presents, each taking the images from one state to the next as
/// `advance` does, keep the image in use in range and step through the images
/// in turn: after `k` presents it is `(start + k) % n`, so after `n` presents
/// it is back where it started.
pub proof fn lemma_presents_cycle_states(states: Seq<SwapchainImages>)
    requires
        states.len() > 0,
        states[0].current() < states[0].images().len(),
        forall|i: int|
            0 <= i < states.len() - 1 ==> {
                &&& (#[trigger] states[i + 1]).images() == states[i].images()
                &&& states[i + 1].current() == (states[i].current() + 1) % (
                states[i].images().len() as int)
            },
    ensures
        forall|k: int|
            0 <= k < states.len() ==> {
                &&& (#[trigger] states[k]).images() == states[0].images()
                &&& states[k].current() < states[0].images().len()
                &&& states[k].current() == (states[0].current() + k) % (
                states[0].images().len() as int)
            },
        states.len() > states[0].images().len() ==> states[states[0].images().len() as int].current()
            == states[0].current(),
    decreases states.len(),
{
    let n = states[0].images().len() as int;
    let start = states[0].current() as int;
    if states.len() == 1 {
        vstd::arithmetic::div_mod::lemma_small_mod(start as nat, n as nat);
    } else {
        let prefix = states.drop_last();
        lemma_presents_cycle_states(prefix);
        let k = states.len() - 1;
        let i = k - 1;
        assert(prefix[i] == states[i]);
        assert(states[i + 1].images() == states[i].images());
        assert(states[k].images() == states[0].images());
        let prev = states[i].current() as int;
        assert(prev == (start + i) % n);
        assert((prev + 1) % n == (start + k) % n) by {
            vstd::arithmetic::div_mod::lemma_add_mod_noop_right(1, start + i, n);
            assert(1 + (start + i) == start + k);
        }
        assert(states[k].current() == (start + k) % n);
        assert(states[k].current() < n) by {
            vstd::arithmetic::div_mod::lemma_mod_bound(start + k, n);
        }
        assert forall|j: int| 0 <= j < states.len() implies {
            &&& (#[trigger] states[j]).images() == states[0].images()
            &&& states[j].current() < n
            &&& states[j].current() == (start + j) % n
        } by {
            if j < k {
                assert(prefix[j] == states[j]);
            }
        }
    }
    if states.len() > n {
        assert(states[n].current() == (start + n) % n);
        vstd::arithmetic::div_mod::lemma_mod_add_multiples_vanish(start, n);
        vstd::arithmetic::div_mod::lemma_small_mod(start as nat, n as nat);
    }
}

} // verus!
